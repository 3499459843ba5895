//! The layout of a developer project — the Describe/, Pages/, APIs/ and
//! Work/ folders — together with the loader, the validator and the project
//! identity metadata. Paths are modelled as strings joined with a forward
//! slash; looking at the file system is the host application's part, which
//! reports what it found as plain values.

use vstd::prelude::*;

use crate::strutil::{
    chars_of, contains_string, ends_with, ends_with_chars, string_from_chars, vec_contains_str,
};

verus! {

use vstd::string::StringExecFns;

/// The Describe/ folder: configuration files and metadata.
#[derive(Debug)]
pub struct DescribeFolder {
    /// The folder path.
    pub path: String,
}

/// The Pages/ folder: UI pages, windows and screens.
#[derive(Debug)]
pub struct PagesFolder {
    /// The folder path.
    pub path: String,
    /// The main entry page.
    pub index_page: String,
}

/// The APIs/ folder: API endpoint definitions.
#[derive(Debug)]
pub struct APIsFolder {
    /// The folder path.
    pub path: String,
}

/// The Work/ folder: the developer's backend logic.
#[derive(Debug)]
pub struct WorkFolder {
    /// The folder path.
    pub path: String,
}

/// Which of the required folders and files are present on disk, as observed
/// by the host application.
#[derive(Clone, Copy, Debug, PartialEq, Eq, Structural)]
pub struct FolderPresence {
    /// Describe/ exists.
    pub describe: bool,
    /// Pages/ exists.
    pub pages: bool,
    /// Pages/Index.rs exists.
    pub index_page: bool,
    /// APIs/ exists.
    pub apis: bool,
    /// Work/ exists.
    pub work: bool,
}

/// The entire project structure rooted at one directory.
#[derive(Debug)]
pub struct ProjectStructure {
    /// The project root.
    pub root: String,
    /// The Describe/ folder.
    pub describe: DescribeFolder,
    /// The Pages/ folder.
    pub pages: PagesFolder,
    /// The APIs/ folder.
    pub apis: APIsFolder,
    /// The Work/ folder.
    pub work: WorkFolder,
}

/// The outcome of the presence check: the first missing piece, in the fixed
/// order Describe/, Pages/, Pages/Index.rs, APIs/, Work/, decides the error.
pub open spec fn validate_presence_spec(present: FolderPresence) -> Result<(), Seq<char>> {
    if !present.describe {
        Err("Missing Describe/ folder"@)
    } else if !present.pages {
        Err("Missing Pages/ folder"@)
    } else if !present.index_page {
        Err("Missing Pages/Index.rs"@)
    } else if !present.apis {
        Err("Missing APIs/ folder"@)
    } else if !present.work {
        Err("Missing Work/ folder"@)
    } else {
        Ok(())
    }
}

/// The view of a unit-or-string-error result.
pub open spec fn unit_result_view(r: Result<(), String>) -> Result<(), Seq<char>> {
    match r {
        Ok(()) => Ok(()),
        Err(e) => Err(e@),
    }
}

impl ProjectStructure {
    /// Lays out the expected folders under a root directory.
    pub fn new(root: &str) -> (r: ProjectStructure)
        ensures
            r.root@ == root@,
            r.describe.path@ == root@ + "/Describe"@,
            r.pages.path@ == root@ + "/Pages"@,
            r.pages.index_page@ == root@ + "/Pages/Index.rs"@,
            r.apis.path@ == root@ + "/APIs"@,
            r.work.path@ == root@ + "/Work"@,
    {
        ProjectStructure {
            root: root.to_owned(),
            describe: DescribeFolder { path: root.to_owned().concat("/Describe") },
            pages: PagesFolder {
                path: root.to_owned().concat("/Pages"),
                index_page: root.to_owned().concat("/Pages/Index.rs"),
            },
            apis: APIsFolder { path: root.to_owned().concat("/APIs") },
            work: WorkFolder { path: root.to_owned().concat("/Work") },
        }
    }

    /// A field-for-field copy.
    pub fn duplicate(&self) -> (r: ProjectStructure)
        ensures
            r == *self,
    {
        ProjectStructure {
            root: self.root.clone(),
            describe: DescribeFolder { path: self.describe.path.clone() },
            pages: PagesFolder {
                path: self.pages.path.clone(),
                index_page: self.pages.index_page.clone(),
            },
            apis: APIsFolder { path: self.apis.path.clone() },
            work: WorkFolder { path: self.work.path.clone() },
        }
    }

    /// Checks that all required folders are present, reporting the first
    /// missing one.
    pub fn validate(&self, present: &FolderPresence) -> (r: Result<(), String>)
        ensures
            unit_result_view(r) == validate_presence_spec(*present),
    {
        if !present.describe {
            return Err("Missing Describe/ folder".to_owned());
        }
        if !present.pages {
            return Err("Missing Pages/ folder".to_owned());
        }
        if !present.index_page {
            return Err("Missing Pages/Index.rs".to_owned());
        }
        if !present.apis {
            return Err("Missing APIs/ folder".to_owned());
        }
        if !present.work {
            return Err("Missing Work/ folder".to_owned());
        }
        Ok(())
    }
}

/// Loads developer project pieces: it owns the expected layout and builds
/// the paths that the host application reads.
pub struct Loader {
    /// The expected project layout.
    pub structure: ProjectStructure,
}

impl Loader {
    /// Creates a loader for the project rooted at `root`.
    pub fn new(root: &str) -> (r: Loader)
        ensures
            r.structure.root@ == root@,
            r.structure.describe.path@ == root@ + "/Describe"@,
            r.structure.pages.path@ == root@ + "/Pages"@,
            r.structure.pages.index_page@ == root@ + "/Pages/Index.rs"@,
            r.structure.apis.path@ == root@ + "/APIs"@,
            r.structure.work.path@ == root@ + "/Work"@,
    {
        Loader { structure: ProjectStructure::new(root) }
    }

    /// Checks the structure against what the host application found.
    pub fn validate(&self, present: &FolderPresence) -> (r: Result<(), String>)
        ensures
            unit_result_view(r) == validate_presence_spec(*present),
    {
        self.structure.validate(present)
    }

    /// The paths of the three files a page template is loaded from:
    /// `<name>.html`, `<name>.css` and `<name>.js` under Pages/.
    pub fn page_template_paths(&self, name: &str) -> (r: (String, String, String))
        ensures
            r.0@ == self.structure.pages.path@ + "/"@ + name@ + ".html"@,
            r.1@ == self.structure.pages.path@ + "/"@ + name@ + ".css"@,
            r.2@ == self.structure.pages.path@ + "/"@ + name@ + ".js"@,
    {
        let base = self.structure.pages.path.clone().concat("/").concat(name);
        let html = base.clone().concat(".html");
        let css = base.clone().concat(".css");
        let js = base.concat(".js");
        (html, css, js)
    }

    /// The path of a configuration file under Describe/.
    pub fn config_path(&self, name: &str) -> (r: String)
        ensures
            r@ == self.structure.describe.path@ + "/"@ + name@,
    {
        self.structure.describe.path.clone().concat("/").concat(name)
    }
}

/// A character is ASCII whitespace.
pub open spec fn space_char(c: char) -> bool {
    c == ' ' || c == '\t' || c == '\n' || c == '\r'
}

/// The string holds nothing but ASCII whitespace.
pub open spec fn is_blank(s: Seq<char>) -> bool {
    forall|i: int| 0 <= i < s.len() ==> space_char(#[trigger] s[i])
}

/// Checks whether a string is blank, in the sense of [`is_blank`].
fn is_blank_str(text: &str) -> (r: bool)
    ensures
        r == is_blank(text@),
{
    let v = chars_of(text);
    let n = v.len();
    let mut i: usize = 0;
    while i < n
        invariant
            n == v.len(),
            v@ == text@,
            i <= n,
            forall|k: int| 0 <= k < i ==> space_char(#[trigger] v@[k]),
        decreases n - i,
    {
        let c = v[i];
        if !(c == ' ' || c == '\t' || c == '\n' || c == '\r') {
            assert(!space_char(text@[i as int]));
            return false;
        }
        i = i + 1;
    }
    true
}

/// The outcome of checking the page entries from position `i` on: the first
/// `.html` entry whose `.css` or `.js` sibling is absent decides the error.
pub open spec fn validate_templates_from(entries: Seq<String>, i: int) -> Result<(), Seq<char>>
    decreases entries.len() - i,
{
    if i < 0 || i >= entries.len() {
        Ok(())
    } else {
        let name = entries[i]@;
        if ends_with(name, ".html"@) {
            let stem = name.take(name.len() - 5);
            if !contains_string(entries, stem + ".css"@) {
                Err("Missing CSS for page "@ + stem)
            } else if !contains_string(entries, stem + ".js"@) {
                Err("Missing JS for page "@ + stem)
            } else {
                validate_templates_from(entries, i + 1)
            }
        } else {
            validate_templates_from(entries, i + 1)
        }
    }
}

/// Deep validation of the project: folder presence, the entry page's
/// content, and the completeness of each page template.
pub struct Validator {
    /// The layout being validated.
    pub structure: ProjectStructure,
}

impl Validator {
    /// Creates a validator over a project layout.
    pub fn new(structure: ProjectStructure) -> (r: Validator)
        ensures
            r.structure == structure,
    {
        Validator { structure }
    }

    /// Checks folder presence, as reported by the host application.
    pub fn validate_folders(&self, present: &FolderPresence) -> (r: Result<(), String>)
        ensures
            unit_result_view(r) == validate_presence_spec(*present),
    {
        self.structure.validate(present)
    }

    /// Checks the entry page: absent is an error, and so is content that is
    /// blank (treating the ASCII whitespace characters as blank).
    pub fn validate_index(&self, content: Option<&str>) -> (r: Result<(), String>)
        ensures
            unit_result_view(r) == (match content {
                None => Err("Missing Pages/Index.rs"@),
                Some(text) => if is_blank(text@) {
                    Err("Pages/Index.rs is empty"@)
                } else {
                    Ok(())
                },
            }),
    {
        match content {
            None => Err("Missing Pages/Index.rs".to_owned()),
            Some(text) => {
                if is_blank_str(text) {
                    Err("Pages/Index.rs is empty".to_owned())
                } else {
                    Ok(())
                }
            },
        }
    }

    /// Checks that every `.html` page among the given Pages/ entries has
    /// its `.css` and `.js` siblings, scanning the entries in order.
    pub fn validate_templates(&self, entries: &Vec<String>) -> (r: Result<(), String>)
        ensures
            unit_result_view(r) == validate_templates_from(entries@, 0),
    {
        let n = entries.len();
        let html_suffix = chars_of(".html");
        let mut i: usize = 0;
        while i < n
            invariant
                n == entries.len(),
                html_suffix@ == ".html"@,
                i <= n,
                validate_templates_from(entries@, 0) == validate_templates_from(
                    entries@,
                    i as int,
                ),
            decreases n - i,
        {
            let name = chars_of(entries[i].as_str());
            if ends_with_chars(&name, &html_suffix) {
                proof {
                    reveal_strlit(".html");
                }
                let stem_len = name.len() - 5;
                let mut stem_chars: Vec<char> = Vec::new();
                let mut k: usize = 0;
                while k < stem_len
                    invariant
                        stem_len <= name.len(),
                        k <= stem_len,
                        stem_chars@ == name@.take(stem_len as int).take(k as int),
                    decreases stem_len - k,
                {
                    stem_chars.push(name[k]);
                    k = k + 1;
                    proof {
                        assert(stem_chars@ =~= name@.take(stem_len as int).take(k as int));
                    }
                }
                proof {
                    assert(stem_chars@ =~= name@.take(stem_len as int));
                }
                let stem = string_from_chars(&stem_chars);
                let css_name = stem.clone().concat(".css");
                let js_name = stem.clone().concat(".js");
                if !vec_contains_str(entries, css_name.as_str()) {
                    return Err("Missing CSS for page ".to_owned().concat(stem.as_str()));
                }
                if !vec_contains_str(entries, js_name.as_str()) {
                    return Err("Missing JS for page ".to_owned().concat(stem.as_str()));
                }
            }
            i = i + 1;
        }
        Ok(())
    }
}

/// Project identity metadata from the Describe/ folder; the host
/// application parses the file and hands the fields over as plain values.
#[derive(Debug)]
pub struct Identity {
    /// The project name.
    pub name: String,
    /// The project version.
    pub version: String,
    /// The project author.
    pub author: String,
    /// The project description.
    pub description: String,
    /// Any custom fields, as key/value pairs.
    pub extra: Vec<(String, String)>,
}

} // verus!
