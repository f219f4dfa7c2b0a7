//! The interpreter of a virtual environment, and how it is accepted.

use vstd::prelude::*;
use crate::error::{EnvironmentProblem, ErrorView, InstallError, ProblemView};

verus! {

/// An interpreter that the interpreter check found.
#[derive(Debug, PartialEq, Eq)]
pub struct ResolvedInterpreter {
    /// The path of its executable.
    pub executable: String,
    /// Its identity, the tag that extension modules built for it carry.
    pub abi_tag: String,
}

/// The model of a [`ResolvedInterpreter`].
pub struct InterpreterView {
    pub executable: Seq<char>,
    pub abi_tag: Seq<char>,
}

impl View for ResolvedInterpreter {
    type V = InterpreterView;

    open spec fn view(&self) -> InterpreterView {
        InterpreterView { executable: self.executable@, abi_tag: self.abi_tag@ }
    }
}

impl Clone for ResolvedInterpreter {
    fn clone(&self) -> (r: Self)
        ensures
            r@ == self@,
    {
        ResolvedInterpreter { executable: self.executable.clone(), abi_tag: self.abi_tag.clone() }
    }
}

/// The model of what the interpreter check reported for a path: an error, no
/// interpreter, or the interpreter found.
pub open spec fn check_view(checked: Result<Option<ResolvedInterpreter>, String>) -> Result<
    Option<InterpreterView>,
    Seq<char>,
> {
    match checked {
        Ok(Some(i)) => Ok(Some(i@)),
        Ok(None) => Ok(None),
        Err(cause) => Err(cause@),
    }
}

/// The interpreter accepted for the environment whose interpreter is at
/// `python`, given what the check reported: the interpreter found, when its
/// executable is `python` itself; otherwise the environment is invalid.
pub open spec fn accepted(python: Seq<char>, checked: Result<Option<InterpreterView>, Seq<char>>) -> Result<
    InterpreterView,
    ErrorView,
> {
    match checked {
        Err(cause) => Err(
            ErrorView::InvalidEnvironment { path: python, problem: ProblemView::CheckFailed { cause } },
        ),
        Ok(None) => Err(
            ErrorView::InvalidEnvironment { path: python, problem: ProblemView::NotAnInterpreter },
        ),
        Ok(Some(i)) => if i.executable == python {
            Ok(i)
        } else {
            Err(
                ErrorView::InvalidEnvironment {
                    path: python,
                    problem: ProblemView::ForeignInterpreter { executable: i.executable },
                },
            )
        },
    }
}

/// Accepts the interpreter that the check found at `python`, or says why the
/// environment is not usable.
pub fn accept_interpreter(python: &String, checked: Result<Option<ResolvedInterpreter>, String>) -> (r:
    Result<ResolvedInterpreter, InstallError>)
    ensures
        match r {
            Ok(i) => accepted(python@, check_view(checked)) == Ok::<InterpreterView, ErrorView>(i@),
            Err(e) => accepted(python@, check_view(checked)) == Err::<InterpreterView, ErrorView>(e@),
        },
{
    match checked {
        Err(cause) => Err(
            InstallError::InvalidEnvironment {
                path: python.clone(),
                problem: EnvironmentProblem::CheckFailed { cause },
            },
        ),
        Ok(None) => Err(
            InstallError::InvalidEnvironment {
                path: python.clone(),
                problem: EnvironmentProblem::NotAnInterpreter,
            },
        ),
        Ok(Some(i)) => {
            if i.executable == *python {
                Ok(i)
            } else {
                Err(
                    InstallError::InvalidEnvironment {
                        path: python.clone(),
                        problem: EnvironmentProblem::ForeignInterpreter { executable: i.executable },
                    },
                )
            }
        },
    }
}

} // verus!
