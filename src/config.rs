//! What an install builds: the bridge, the build options and the build
//! context derived from them.

use vstd::prelude::*;

verus! {

/// How the compiled code is exposed to the interpreter.
#[derive(Debug, PartialEq, Eq)]
pub enum BridgeModel {
    /// A standalone executable, with no interpreter coupling.
    Bin,
    /// A shared library with a C ABI, loaded by a generated wrapper module.
    Cffi,
    /// A native extension module built against one interpreter.
    Bindings { flavor: String },
}

/// The model of a [`BridgeModel`].
pub enum BridgeView {
    Bin,
    Cffi,
    Bindings { flavor: Seq<char> },
}

impl View for BridgeModel {
    type V = BridgeView;

    open spec fn view(&self) -> BridgeView {
        match self {
            BridgeModel::Bin => BridgeView::Bin,
            BridgeModel::Cffi => BridgeView::Cffi,
            BridgeModel::Bindings { flavor } => BridgeView::Bindings { flavor: flavor@ },
        }
    }
}

/// The configuration of one build, as handed to the build-context derivation.
#[derive(Debug, PartialEq, Eq)]
pub struct BuildOptions {
    /// The interpreters to build for, by name.
    pub interpreter: Vec<String>,
    /// The bridge asked for; none lets the derivation infer it from the
    /// project's metadata.
    pub bindings: Option<String>,
    pub manifest_path: String,
    /// Where a packaged build would be written; installs write none.
    pub out: Option<String>,
    pub debug: bool,
    pub skip_auditwheel: bool,
    /// Extra arguments for the build tool, in order.
    pub cargo_extra_args: Vec<String>,
    /// Extra arguments for the compiler, in order.
    pub rustc_extra_args: Vec<String>,
}

/// The model of a [`BuildOptions`].
pub struct OptionsView {
    pub interpreter: Seq<Seq<char>>,
    pub bindings: Option<Seq<char>>,
    pub manifest_path: Seq<char>,
    pub out: Option<Seq<char>>,
    pub debug: bool,
    pub skip_auditwheel: bool,
    pub cargo_extra_args: Seq<Seq<char>>,
    pub rustc_extra_args: Seq<Seq<char>>,
}

impl View for BuildOptions {
    type V = OptionsView;

    open spec fn view(&self) -> OptionsView {
        OptionsView {
            interpreter: self.interpreter.deep_view(),
            bindings: self.bindings.deep_view(),
            manifest_path: self.manifest_path@,
            out: self.out.deep_view(),
            debug: self.debug,
            skip_auditwheel: self.skip_auditwheel,
            cargo_extra_args: self.cargo_extra_args.deep_view(),
            rustc_extra_args: self.rustc_extra_args.deep_view(),
        }
    }
}

/// The options of a development install: built for the `python` of the
/// environment, never packaged, in debug mode unless `release`.
pub open spec fn develop_options(
    bindings: Option<Seq<char>>,
    manifest_path: Seq<char>,
    cargo_extra_args: Seq<Seq<char>>,
    rustc_extra_args: Seq<Seq<char>>,
    release: bool,
) -> OptionsView {
    OptionsView {
        interpreter: seq!["python"@],
        bindings,
        manifest_path,
        out: None,
        debug: !release,
        skip_auditwheel: false,
        cargo_extra_args,
        rustc_extra_args,
    }
}

impl BuildOptions {
    /// The options of a development install of the project at
    /// `manifest_path`.
    pub fn for_develop(
        bindings: Option<String>,
        manifest_path: String,
        cargo_extra_args: Vec<String>,
        rustc_extra_args: Vec<String>,
        release: bool,
    ) -> (r: BuildOptions)
        ensures
            r@ == develop_options(
                bindings.deep_view(),
                manifest_path@,
                cargo_extra_args.deep_view(),
                rustc_extra_args.deep_view(),
                release,
            ),
    {
        let interpreter = vec![String::from_str("python")];
        assert(interpreter.deep_view() =~= seq!["python"@]);
        BuildOptions {
            interpreter,
            bindings,
            manifest_path,
            out: None,
            debug: !release,
            skip_auditwheel: false,
            cargo_extra_args,
            rustc_extra_args,
        }
    }
}

/// What the install reads of the context derived from the build options.
#[derive(Debug, PartialEq, Eq)]
pub struct BuildContext {
    /// The bridge the project is built with.
    pub bridge: BridgeModel,
    /// The name under which the project is imported.
    pub module_name: String,
}

/// The model of a [`BuildContext`].
pub struct ContextView {
    pub bridge: BridgeView,
    pub module_name: Seq<char>,
}

impl View for BuildContext {
    type V = ContextView;

    open spec fn view(&self) -> ContextView {
        ContextView { bridge: self.bridge@, module_name: self.module_name@ }
    }
}

} // verus!
