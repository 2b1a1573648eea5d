//! The actions page: the cached list of external tools and the names shown
//! on their buttons.
use vstd::prelude::*;

verus! {

/// The actions page, with the list of tool paths once it has been loaded.
#[derive(Debug)]
pub struct ActionsView {
    /// Relative paths of the external tools; `None` until first loaded.
    pub tools: Option<Vec<String>>,
}

impl ActionsView {
    /// Whether the tool list still has to be loaded: no list is cached, so
    /// the program finder is to be asked.
    pub fn needs_tools(&self) -> (r: bool)
        ensures
            r == self.tools is None,
    {
        self.tools.is_none()
    }

    /// The cached tool list, or no tools when none is cached.
    pub fn tool_list(&self) -> (r: &[String])
        ensures
            r@ == (match self.tools {
                Some(l) => l@,
                None => Seq::<String>::empty(),
            }),
    {
        match &self.tools {
            Some(l) => l.as_slice(),
            None => &[],
        }
    }

    /// Loads the tool list once: when no list is cached, `loaded` (the
    /// program finder's answer, `None` when it failed) becomes the list, an
    /// empty one on failure; a cached list is kept.
    pub fn ensure_tools(&mut self, loaded: Option<Vec<String>>)
        ensures
            old(self).tools is Some ==> *final(self) == *old(self),
            old(self).tools is None ==> (final(self).tools matches Some(list) && list@ == (match loaded {
                Some(l) => l@,
                None => Seq::<String>::empty(),
            })),
    {
        if self.tools.is_none() {
            self.tools = Some(
                match loaded {
                    Some(l) => l,
                    None => Vec::new(),
                },
            );
        }
    }
}

impl Default for ActionsView {
    fn default() -> (r: ActionsView)
        ensures
            r.tools is None,
    {
        ActionsView { tools: None }
    }
}

/// The final component of a path, as `std::path::Path::file_name` gives it;
/// `None` when the path ends in `..` or has no final component. The
/// separators and prefixes are those of the target the library is built
/// for (`/` on Unix; `\` and `/` with drive prefixes on Windows), so the name
/// holds per target.
pub uninterp spec fn path_file_name(path: Seq<char>) -> Option<Seq<char>>;

/// Calls `std::path::Path::file_name` on `path` and converts the name to a
/// `String`. The contract claims that the result is the path's file name as
/// `path_file_name` names it; what that name is, is left to std.
#[verifier::external_body]
fn file_name_of(path: &str) -> (r: Option<String>)
    ensures
        match r {
            Some(name) => path_file_name(path@) == Some(name@),
            None => path_file_name(path@) is None,
        },
{
    match std::path::Path::new(path).file_name() {
        Some(name) => Some(name.to_string_lossy().into_owned()),
        None => None,
    }
}

/// The text of a tool's button given the file name of its path: the file
/// name, or the whole path when it has none.
pub fn tool_label_from(tool_path: &str, file_name: Option<String>) -> (r: String)
    ensures
        r@ == (match file_name {
            Some(n) => n@,
            None => tool_path@,
        }),
{
    match file_name {
        Some(n) => n,
        None => tool_path.to_owned(),
    }
}

/// The text of a tool's button: the file name of its path, or the whole
/// path when it has none.
pub fn tool_label(tool_path: &str) -> (r: String)
    ensures
        r@ == (match path_file_name(tool_path@) {
            Some(n) => n,
            None => tool_path@,
        }),
{
    let name = file_name_of(tool_path);
    tool_label_from(tool_path, name)
}

} // verus!
