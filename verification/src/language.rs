//! Detection of a file's language from the extension of its path.

use vstd::prelude::*;
use crate::path::{extension, path_extension_bounds};
use crate::text::{chars_of, range_is};

verus! {

/// The language that an extension stands for, if it is a supported one.
pub open spec fn language_of_extension(ext: Seq<char>) -> Option<Seq<char>> {
    if ext == "py"@ || ext == "pyi"@ {
        Some("python"@)
    } else if ext == "ts"@ || ext == "tsx"@ {
        Some("typescript"@)
    } else if ext == "js"@ || ext == "jsx"@ {
        Some("javascript"@)
    } else if ext == "rs"@ {
        Some("rust"@)
    } else {
        None
    }
}

/// The language of the file a path names, if its extension is a supported one.
pub open spec fn language_of(path: Seq<char>) -> Option<Seq<char>> {
    match extension(path) {
        Some(ext) => language_of_extension(ext),
        None => None,
    }
}

/// Whether a name is one of the four language tags.
pub open spec fn is_language_tag(tag: Seq<char>) -> bool {
    tag == "python"@ || tag == "typescript"@ || tag == "javascript"@ || tag == "rust"@
}

/// The view of an optional static string.
pub open spec fn tag_view(tag: Option<&'static str>) -> Option<Seq<char>> {
    match tag {
        Some(s) => Some(s@),
        None => None,
    }
}

/// The language for the extension `chars[from..to]`.
pub fn language_for_extension(chars: &Vec<char>, from: usize, to: usize) -> (r: Option<
    &'static str,
>)
    requires
        from <= to <= chars.len(),
    ensures
        tag_view(r) == language_of_extension(chars@.subrange(from as int, to as int)),
{
    if range_is(chars, from, to, "py") || range_is(chars, from, to, "pyi") {
        Some("python")
    } else if range_is(chars, from, to, "ts") || range_is(chars, from, to, "tsx") {
        Some("typescript")
    } else if range_is(chars, from, to, "js") || range_is(chars, from, to, "jsx") {
        Some("javascript")
    } else if range_is(chars, from, to, "rs") {
        Some("rust")
    } else {
        None
    }
}

/// Detects the language of a file from the extension of its path. The match
/// is case-sensitive and looks at the final component's extension only.
pub fn detect_language(path: &str) -> (r: Option<&'static str>)
    ensures
        tag_view(r) == language_of(path@),
        r matches Some(tag) ==> is_language_tag(tag@),
{
    let chars = chars_of(path);
    match path_extension_bounds(&chars) {
        Some((from, to)) => language_for_extension(&chars, from, to),
        None => None,
    }
}

/// Whether the extension of `path` is one of the supported ones.
pub fn has_supported_extension(path: &str) -> (r: bool)
    ensures
        r == language_of(path@).is_some(),
{
    detect_language(path).is_some()
}

/// A path has a language exactly when its extension is one of the seven
/// supported ones, and the language is then one of the four tags.
pub proof fn language_detection_is_total(path: Seq<char>)
    ensures
        language_of(path) is Some <==> (extension(path) matches Some(ext) && (ext == "py"@ || ext
            == "pyi"@ || ext == "ts"@ || ext == "tsx"@ || ext == "js"@ || ext == "jsx"@ || ext
            == "rs"@)),
        language_of(path) matches Some(tag) ==> is_language_tag(tag),
{
}

} // verus!
