//! Go bindings for the selected world.
use vstd::prelude::*;
use crate::text::{Delimiters, runs, split_runs, views};

verus! {

/// Relies on `wit_bindgen_go::remote_pkg_version`: the shared Go package and
/// the version of it that the bindings use.
#[verifier::external_body]
fn remote_pkg_version() -> (r: String)
    ensures
        r@ == "go.bytecodealliance.org/pkg v0.4.0"@,
{
    wit_bindgen_go::remote_pkg_version()
}

/// A file name that stays inside the directory it is written to: not
/// empty, not absolute, and with no `..` segment.
pub open spec fn stays_inside(name: Seq<char>) -> bool {
    &&& name.len() > 0
    &&& name[0] != '/'
    &&& forall|k: int| 0 <= k < runs(name, Delimiters::Slash).len()
        ==> #[trigger] runs(name, Delimiters::Slash)[k] != seq!['.', '.']
}

/// The note for a caller that generates a library package.
pub open spec fn library_note() -> Seq<char> {
    "Success! Please add the following line to your 'go.mod' file:\n\nrequire "@
        + "go.bytecodealliance.org/pkg v0.4.0"@
}

/// Generated files by name, and a note for the caller.
pub struct BindingSet {
    pub files: Vec<(String, Vec<u8>)>,
    pub message: Option<String>,
}

/// Why generated bindings are not written.
pub enum BindingsError {
    /// A generated file name would leave the output directory.
    UnsafeName(String),
}

fn is_dot_dot(t: &str) -> (r: bool)
    ensures
        r == (t@ == seq!['.', '.']),
{
    if t.unicode_len() == 2 {
        let c0 = t.get_char(0);
        let c1 = t.get_char(1);
        if c0 == '.' && c1 == '.' {
            assert(t@ =~= seq!['.', '.']);
            true
        } else {
            assert(t@[0] != seq!['.', '.'][0] || t@[1] != seq!['.', '.'][1]);
            false
        }
    } else {
        assert(t@.len() != seq!['.', '.'].len());
        false
    }
}

/// Whether writing `name` under a directory stays inside it.
pub fn name_stays_inside(name: &str) -> (r: bool)
    ensures
        r == stays_inside(name@),
{
    if name.unicode_len() == 0 {
        return false;
    }
    if name.get_char(0) == '/' {
        return false;
    }
    let segments = split_runs(name, Delimiters::Slash);
    let mut k: usize = 0;
    while k < segments.len()
        invariant
            k <= segments@.len(),
            views(segments@) == runs(name@, Delimiters::Slash),
            forall|m: int| 0 <= m < k ==> #[trigger] runs(name@, Delimiters::Slash)[m] != seq!['.', '.'],
        decreases segments.len() - k,
    {
        assert(views(segments@)[k as int] == segments@[k as int]@);
        if is_dot_dot(segments[k].as_str()) {
            return false;
        }
        k = k + 1;
    }
    true
}

pub open spec fn all_stay_inside(files: Seq<(String, Vec<u8>)>) -> bool {
    forall|i: int| 0 <= i < files.len() ==> stays_inside(#[trigger] files[i].0@)
}

/// Accepts generated files when every name stays inside the output
/// directory; otherwise names one that does not.
pub fn check_names(files: Vec<(String, Vec<u8>)>, message: Option<String>) -> (r: Result<BindingSet, BindingsError>)
    ensures
        r is Ok <==> all_stay_inside(files@),
        r matches Ok(b) ==> b.files@ == files@ && b.message == message,
        r matches Err(BindingsError::UnsafeName(n)) ==> !stays_inside(n@),
{
    let mut i: usize = 0;
    while i < files.len()
        invariant
            i <= files@.len(),
            forall|m: int| 0 <= m < i ==> stays_inside(#[trigger] files@[m].0@),
        decreases files.len() - i,
    {
        if !name_stays_inside(files[i].0.as_str()) {
            return Err(BindingsError::UnsafeName(files[i].0.clone()));
        }
        i = i + 1;
    }
    Ok(BindingSet { files, message })
}

/// The note shown to a caller that generates a library package (one with a
/// package name): the dependency line to add to `go.mod`.
pub fn library_message(pkg_name: &Option<String>) -> (r: Option<String>)
    ensures
        r is Some <==> pkg_name is Some,
        r matches Some(m) ==> m@ == library_note(),
{
    match pkg_name {
        Some(_) => {
            let mut m = String::from_str("Success! Please add the following line to your 'go.mod' file:\n\nrequire ");
            let version = remote_pkg_version();
            m.append(version.as_str());
            Some(m)
        },
        None => None,
    }
}

/// Turns the files that the Go bindings generator produced for a world
/// into the set to write: every name must stay inside the output
/// directory, and a library package (`pkg_name` given) comes with a note
/// naming the dependency to add.
pub fn generate_bindings(files: Vec<(String, Vec<u8>)>, pkg_name: &Option<String>) -> (r: Result<BindingSet, BindingsError>)
    ensures
        r is Ok <==> all_stay_inside(files@),
        r matches Ok(b) ==> {
            &&& b.files@ == files@
            &&& (b.message is Some <==> pkg_name is Some)
            &&& (b.message matches Some(m) ==> m@ == library_note())
        },
        r matches Err(BindingsError::UnsafeName(n)) ==> !stays_inside(n@),
{
    let message = library_message(pkg_name);
    check_names(files, message)
}

} // verus!
