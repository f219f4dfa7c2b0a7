//! Platforms and the paths they give a virtual environment.

use vstd::prelude::*;

verus! {

/// The operating systems a virtual environment can be laid out for.
#[derive(Clone, Copy, Debug, PartialEq, Eq, Structural)]
pub enum Os {
    Linux,
    Windows,
    Macos,
    FreeBsd,
}

/// The platform an install runs on.
#[derive(Clone, Copy, Debug, PartialEq, Eq, Structural)]
pub struct Target {
    pub os: Os,
    pub is_64_bit: bool,
}

/// Whether `c` separates path components on `os`.
pub open spec fn is_separator(os: Os, c: char) -> bool {
    c == '/' || (os == Os::Windows && c == '\\')
}

/// The separator that `os` writes between path components.
pub open spec fn separator(os: Os) -> char {
    if os == Os::Windows {
        '\\'
    } else {
        '/'
    }
}

/// `name` appended to the directory `base` as one more component.
pub open spec fn join(os: Os, base: Seq<char>, name: Seq<char>) -> Seq<char> {
    if base.len() == 0 || is_separator(os, base.last()) {
        base + name
    } else {
        base.push(separator(os)) + name
    }
}

/// The directory of a virtual environment that holds its executables.
pub open spec fn bin_dir_name(os: Os) -> Seq<char> {
    if os == Os::Windows {
        "Scripts"@
    } else {
        "bin"@
    }
}

/// The file name of a virtual environment's interpreter.
pub open spec fn python_name(os: Os) -> Seq<char> {
    if os == Os::Windows {
        "python.exe"@
    } else {
        "python"@
    }
}

/// Where the last component of `path` begins: just after its last separator,
/// or at 0 when it has none.
pub open spec fn component_start(os: Os, path: Seq<char>) -> int
    decreases path.len(),
{
    if path.len() == 0 {
        0
    } else if is_separator(os, path.last()) {
        path.len() as int
    } else {
        component_start(os, path.drop_last())
    }
}

/// The last component of `path`, or none when `path` is empty or ends with a
/// separator.
pub open spec fn file_name_of(os: Os, path: Seq<char>) -> Option<Seq<char>> {
    let start = component_start(os, path);
    if start == path.len() {
        None
    } else {
        Some(path.subrange(start, path.len() as int))
    }
}

/// The last component of a path holds no separator, and the path is what
/// precedes it followed by it.
pub proof fn lemma_file_name_shape(os: Os, path: Seq<char>)
    ensures
        0 <= component_start(os, path) <= path.len(),
        forall|j: int|
            component_start(os, path) <= j < path.len() ==> !is_separator(os, #[trigger] path[j]),
        component_start(os, path) > 0 ==> is_separator(os, path[component_start(os, path) - 1]),
    decreases path.len(),
{
    if path.len() > 0 && !is_separator(os, path.last()) {
        let shorter = path.drop_last();
        lemma_file_name_shape(os, shorter);
        assert forall|j: int| component_start(os, path) <= j < path.len() implies !is_separator(
            os,
            #[trigger] path[j],
        ) by {
            if j < path.len() - 1 {
                assert(path[j] == shorter[j]);
            }
        }
        if component_start(os, path) > 0 {
            assert(path[component_start(os, path) - 1] == shorter[component_start(os, path) - 1]);
        }
    }
}

/// A path made of a directory part that is empty or ends with a separator,
/// followed by a part with no separator, has its last component begin where
/// the second part begins.
pub proof fn lemma_component_start_after(os: Os, dir: Seq<char>, name: Seq<char>)
    requires
        dir.len() == 0 || is_separator(os, dir.last()),
        forall|j: int| 0 <= j < name.len() ==> !is_separator(os, #[trigger] name[j]),
    ensures
        component_start(os, dir + name) == dir.len(),
    decreases name.len(),
{
    if name.len() == 0 {
        assert(dir + name =~= dir);
    } else {
        let shorter = name.drop_last();
        assert((dir + name).drop_last() =~= dir + shorter);
        assert((dir + name).last() == name[name.len() - 1]);
        lemma_component_start_after(os, dir, shorter);
    }
}

/// A file name joined to a directory is the file name of the result.
pub proof fn lemma_file_name_of_join(os: Os, dir: Seq<char>, name: Seq<char>)
    requires
        name.len() > 0,
        forall|j: int| 0 <= j < name.len() ==> !is_separator(os, #[trigger] name[j]),
    ensures
        file_name_of(os, join(os, dir, name)) == Some(name),
{
    let prefix = if dir.len() == 0 || is_separator(os, dir.last()) {
        dir
    } else {
        dir.push(separator(os))
    };
    assert(join(os, dir, name) == prefix + name);
    lemma_component_start_after(os, prefix, name);
    assert((prefix + name).subrange(prefix.len() as int, (prefix + name).len() as int) =~= name);
}

/// The last component of a path holds no separator and is not empty.
pub proof fn lemma_file_name_has_no_separator(os: Os, path: Seq<char>)
    ensures
        file_name_of(os, path) matches Some(name) ==> name.len() > 0 && forall|j: int|
            0 <= j < name.len() ==> !is_separator(os, #[trigger] name[j]),
{
    lemma_file_name_shape(os, path);
    if let Some(name) = file_name_of(os, path) {
        let start = component_start(os, path);
        assert forall|j: int| 0 <= j < name.len() implies !is_separator(os, #[trigger] name[j]) by {
            assert(name[j] == path[start + j]);
        }
    }
}

impl Target {
    /// The executable directory of the virtual environment at `venv`.
    pub open spec fn venv_bin_dir_of(self, venv: Seq<char>) -> Seq<char> {
        join(self.os, venv, bin_dir_name(self.os))
    }

    /// The interpreter of the virtual environment at `venv`.
    pub open spec fn venv_python_of(self, venv: Seq<char>) -> Seq<char> {
        join(self.os, self.venv_bin_dir_of(venv), python_name(self.os))
    }

    /// Whether `c` separates path components on this platform.
    pub fn is_separator(&self, c: char) -> (r: bool)
        ensures
            r == is_separator(self.os, c),
    {
        c == '/' || (matches!(self.os, Os::Windows) && c == '\\')
    }

    /// `name` appended to the directory `base` as one more component.
    pub fn join(&self, base: &str, name: &str) -> (r: String)
        ensures
            r@ == join(self.os, base@, name@),
    {
        let n = base.unicode_len();
        let mut r = String::from_str(base);
        if n == 0 || self.is_separator(base.get_char(n - 1)) {
            r.append(name);
        } else {
            let sep = match self.os {
                Os::Windows => "\\",
                _ => "/",
            };
            proof {
                reveal_strlit("\\");
                reveal_strlit("/");
            }
            r.append(sep);
            r.append(name);
        }
        r
    }

    /// The executable directory of the virtual environment at `venv_dir`:
    /// `Scripts` on Windows, `bin` elsewhere.
    pub fn venv_bin_dir(&self, venv_dir: &str) -> (r: String)
        ensures
            r@ == self.venv_bin_dir_of(venv_dir@),
    {
        let dir = match self.os {
            Os::Windows => "Scripts",
            _ => "bin",
        };
        self.join(venv_dir, dir)
    }

    /// The interpreter of the virtual environment at `venv_dir`:
    /// `Scripts\python.exe` on Windows, `bin/python` elsewhere.
    pub fn venv_python(&self, venv_dir: &str) -> (r: String)
        ensures
            r@ == self.venv_python_of(venv_dir@),
    {
        let bin_dir = self.venv_bin_dir(venv_dir);
        let exe = match self.os {
            Os::Windows => "python.exe",
            _ => "python",
        };
        self.join(bin_dir.as_str(), exe)
    }

    /// The last component of `path`, or none when `path` is empty or ends
    /// with a separator.
    pub fn file_name(&self, path: &str) -> (r: Option<String>)
        ensures
            r matches Some(name) ==> file_name_of(self.os, path@) == Some(name@),
            r is None ==> file_name_of(self.os, path@) is None,
    {
        let n = path.unicode_len();
        let mut i: usize = n;
        assert(path@.subrange(0, n as int) =~= path@);
        while i > 0 && !self.is_separator(path.get_char(i - 1))
            invariant
                i <= n,
                n == path@.len(),
                component_start(self.os, path@) == component_start(
                    self.os,
                    path@.subrange(0, i as int),
                ),
            decreases i,
        {
            assert(path@.subrange(0, i as int).drop_last() =~= path@.subrange(0, i - 1));
            i = i - 1;
        }
        if i == n {
            None
        } else {
            Some(String::from_str(path.substring_char(i, n)))
        }
    }
}

} // verus!
