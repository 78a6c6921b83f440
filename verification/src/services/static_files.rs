//! Static assets: which file a request path names, what is served when the
//! file is missing, and the content type of what is served.
//!
//! Files are read by the caller. This module names the file to read and
//! decides what follows from what was found.

use crate::error::HeisenbergError;
use crate::text::chars_of;
use vstd::prelude::*;
use vstd::string::StringExecFns;

verus! {

/// Hint given when neither the asset nor a fallback file exists.
pub const NOT_FOUND_HINT: &'static str =
    "• Check if the file exists in the embedded assets\n• Verify the frontend build completed successfully\n• Ensure the embed directory path is correct\n• For SPAs, missing files should fall back to index.html";

/// Content type of an HTML document.
pub const HTML_CONTENT_TYPE: &'static str = "text/html; charset=utf-8";

/// Content type of a file whose kind is not known.
pub const BINARY_CONTENT_TYPE: &'static str = "application/octet-stream";

/// A file to serve.
#[derive(Debug)]
pub struct Asset {
    /// The bytes of the file.
    pub contents: Vec<u8>,
    /// Its content type.
    pub content_type: String,
}

/// What follows from the first look for an asset.
#[derive(Debug)]
pub enum AssetStep {
    /// The file was found: serve it.
    Serve(Asset),
    /// The file is missing: read the fallback file of this name and report
    /// what was found.
    TryFallback(String),
    /// The file is missing and there is no fallback.
    Missing(HeisenbergError),
}

/// The position of the last `mark` in `text`, or -1 where there is none.
pub open spec fn last_index_of(text: Seq<char>, mark: char) -> int
    decreases text.len(),
{
    if text.len() == 0 {
        -1
    } else if text.last() == mark {
        text.len() - 1
    } else {
        last_index_of(text.drop_last(), mark)
    }
}

/// The last segment of a path: what follows its last `/`.
pub open spec fn file_name_of(path: Seq<char>) -> Seq<char> {
    path.skip(last_index_of(path, '/') + 1)
}

/// The extension of a path: what follows the last dot of its last segment,
/// unless that dot opens the segment or there is none.
pub open spec fn extension_of(path: Seq<char>) -> Option<Seq<char>> {
    let name = file_name_of(path);
    let dot = last_index_of(name, '.');
    if dot > 0 {
        Some(name.skip(dot + 1))
    } else {
        None
    }
}

/// The content type for an extension.
pub open spec fn content_type_of(extension: Option<Seq<char>>) -> Seq<char> {
    match extension {
        Some(ext) => if ext == "html"@ {
            HTML_CONTENT_TYPE@
        } else if ext == "css"@ {
            "text/css; charset=utf-8"@
        } else if ext == "js"@ {
            "application/javascript; charset=utf-8"@
        } else if ext == "json"@ {
            "application/json; charset=utf-8"@
        } else if ext == "png"@ {
            "image/png"@
        } else if ext == "jpg"@ || ext == "jpeg"@ {
            "image/jpeg"@
        } else if ext == "gif"@ {
            "image/gif"@
        } else if ext == "svg"@ {
            "image/svg+xml"@
        } else if ext == "ico"@ {
            "image/x-icon"@
        } else if ext == "woff"@ {
            "font/woff"@
        } else if ext == "woff2"@ {
            "font/woff2"@
        } else if ext == "ttf"@ {
            "font/ttf"@
        } else {
            BINARY_CONTENT_TYPE@
        },
        None => BINARY_CONTENT_TYPE@,
    }
}

/// The content type of the file that a path names.
pub open spec fn mime_of(path: Seq<char>) -> Seq<char> {
    content_type_of(extension_of(path))
}

/// The file that a request path names under the asset directory: the
/// fallback file, or `index.html` where none is set, for the root and for the
/// empty path; otherwise the path without its leading slash.
pub open spec fn asset_file(path: Seq<char>, fallback: Option<Seq<char>>) -> Seq<char> {
    if path.len() == 0 || path == seq!['/'] {
        match fallback {
            Some(file) => file,
            None => "index.html"@,
        }
    } else if path[0] == '/' {
        path.drop_first()
    } else {
        path
    }
}

/// What is known of the last mark of a text.
pub proof fn lemma_last_index_of(text: Seq<char>, mark: char)
    ensures
        -1 <= last_index_of(text, mark) < text.len(),
        last_index_of(text, mark) >= 0 ==> text[last_index_of(text, mark)] == mark,
        forall|k: int| last_index_of(text, mark) < k < text.len() ==> text[k] != mark,
    decreases text.len(),
{
    if text.len() > 0 && text.last() != mark {
        lemma_last_index_of(text.drop_last(), mark);
        let found = last_index_of(text.drop_last(), mark);
        assert forall|k: int| found < k < text.len() implies text[k] != mark by {
            if k < text.len() - 1 {
                assert(text.drop_last()[k] == text[k]);
            }
        }
    }
}

/// A position that holds the mark and has none after it is the last one.
pub proof fn lemma_last_index_is(text: Seq<char>, mark: char, at: int)
    requires
        -1 <= at < text.len(),
        at >= 0 ==> text[at] == mark,
        forall|k: int| at < k < text.len() ==> text[k] != mark,
    ensures
        last_index_of(text, mark) == at,
{
    lemma_last_index_of(text, mark);
}

/// The position of the last `mark` among the characters from `from` on,
/// counted from `from`.
fn find_last(chars: &Vec<char>, from: usize, mark: char) -> (found: Option<usize>)
    requires
        from <= chars.len(),
    ensures
        match found {
            Some(at) => from + at < chars.len() && at == last_index_of(
                chars@.skip(from as int),
                mark,
            ),
            None => last_index_of(chars@.skip(from as int), mark) == -1,
        },
{
    let ghost text = chars@.skip(from as int);
    let mut at: usize = chars.len();
    while at > from
        invariant
            from <= at <= chars.len(),
            text == chars@.skip(from as int),
            forall|k: int| at - from <= k < text.len() ==> text[k] != mark,
        decreases at,
    {
        at -= 1;
        if chars[at] == mark {
            proof {
                lemma_last_index_is(text, mark, at - from);
            }
            return Some(at - from);
        }
    }
    proof {
        lemma_last_index_is(text, mark, -1);
    }
    None
}

/// Whether the characters from `from` on spell `word`.
fn rest_is(chars: &Vec<char>, from: usize, word: &str) -> (same: bool)
    requires
        from <= chars.len(),
    ensures
        same == (chars@.skip(from as int) == word@),
{
    let letters = chars_of(word);
    if letters.len() != chars.len() - from {
        return false;
    }
    let mut at: usize = 0;
    while at < letters.len()
        invariant
            at <= letters.len(),
            from <= chars.len(),
            letters.len() == chars.len() - from,
            letters@ == word@,
            forall|k: int| 0 <= k < at ==> letters@[k] == chars@[from + k],
        decreases letters.len() - at,
    {
        if letters[at] != chars[from + at] {
            return false;
        }
        at += 1;
    }
    assert(chars@.skip(from as int) =~= word@);
    true
}

/// Serves the static assets of one route.
#[derive(Debug)]
pub struct StaticFileService {
    fallback_file: Option<String>,
}

impl StaticFileService {
    /// A service that serves `fallback_file`, if one is given, in place of
    /// a missing asset.
    pub fn new(fallback_file: Option<String>) -> (service: Self)
        ensures
            service.fallback() == match fallback_file {
                Some(file) => Some(file@),
                None => None,
            },
    {
        StaticFileService { fallback_file }
    }

    /// The file served in place of a missing asset.
    pub closed spec fn fallback(self) -> Option<Seq<char>> {
        match self.fallback_file {
            Some(file) => Some(file@),
            None => None,
        }
    }

    /// The file, below the asset directory, that a request path names.
    pub fn asset_path(&self, path: &str) -> (file: String)
        ensures
            file@ == asset_file(path@, self.fallback()),
    {
        let chars = chars_of(path);
        if chars.len() == 0 || (chars.len() == 1 && chars[0] == '/') {
            proof {
                if chars.len() == 1 {
                    assert(path@ =~= seq!['/']);
                }
            }
            match &self.fallback_file {
                Some(file) => file.clone(),
                None => String::from_str("index.html"),
            }
        } else if chars[0] == '/' {
            let rest = path.substring_char(1, chars.len());
            rest.to_owned()
        } else {
            path.to_owned()
        }
    }

    /// The content type of the file that a path names, by its extension:
    /// HTML, style sheets, scripts, JSON, the common image and font formats,
    /// and plain bytes for everything else.
    pub fn detect_mime_type(&self, path: &str) -> (mime: &'static str)
        ensures
            mime@ == mime_of(path@),
    {
        let chars = chars_of(path);
        assert(chars@.skip(0) =~= chars@);
        let name_start: usize = match find_last(&chars, 0, '/') {
            Some(slash) => slash + 1,
            None => 0,
        };
        let ghost name = file_name_of(path@);
        let dot = match find_last(&chars, name_start, '.') {
            Some(dot) => dot,
            None => {
                return BINARY_CONTENT_TYPE;
            },
        };
        if dot == 0 {
            return BINARY_CONTENT_TYPE;
        }
        proof {
            lemma_last_index_of(name, '.');
        }
        let from: usize = name_start + dot + 1;
        assert(chars@.skip(from as int) =~= name.skip(dot + 1));
        if rest_is(&chars, from, "html") {
            HTML_CONTENT_TYPE
        } else if rest_is(&chars, from, "css") {
            "text/css; charset=utf-8"
        } else if rest_is(&chars, from, "js") {
            "application/javascript; charset=utf-8"
        } else if rest_is(&chars, from, "json") {
            "application/json; charset=utf-8"
        } else if rest_is(&chars, from, "png") {
            "image/png"
        } else if rest_is(&chars, from, "jpg") || rest_is(&chars, from, "jpeg") {
            "image/jpeg"
        } else if rest_is(&chars, from, "gif") {
            "image/gif"
        } else if rest_is(&chars, from, "svg") {
            "image/svg+xml"
        } else if rest_is(&chars, from, "ico") {
            "image/x-icon"
        } else if rest_is(&chars, from, "woff") {
            "font/woff"
        } else if rest_is(&chars, from, "woff2") {
            "font/woff2"
        } else if rest_is(&chars, from, "ttf") {
            "font/ttf"
        } else {
            BINARY_CONTENT_TYPE
        }
    }

    /// Decides what follows from the look for the asset of a request path,
    /// where `found` holds the bytes of the file that [`Self::asset_path`]
    /// names, if it exists. A file that was found is served with the content
    /// type of its name; for a missing file the fallback is tried, if one is
    /// set, and the request fails otherwise.
    pub fn serve_file(&self, path: &str, found: Option<Vec<u8>>) -> (step: AssetStep)
        ensures
            match step {
                AssetStep::Serve(asset) => found matches Some(bytes) && asset.contents@ == bytes@
                    && asset.content_type@ == mime_of(asset_file(path@, self.fallback())),
                AssetStep::TryFallback(file) => found is None && self.fallback() == Some(file@),
                AssetStep::Missing(error) => found is None && self.fallback() is None
                    && error.is_file_not_found(path@, NOT_FOUND_HINT@),
            },
    {
        match found {
            Some(contents) => {
                let file = self.asset_path(path);
                let mime = self.detect_mime_type(file.as_str());
                AssetStep::Serve(Asset { contents, content_type: mime.to_owned() })
            },
            None => match &self.fallback_file {
                Some(file) => AssetStep::TryFallback(file.clone()),
                None => AssetStep::Missing(HeisenbergError::file_not_found(path, NOT_FOUND_HINT)),
            },
        }
    }

    /// Decides what follows from the look for the fallback file, where
    /// `found` holds its bytes, if it exists. The fallback is served as an
    /// HTML document; without it the request fails.
    pub fn serve_fallback(&self, path: &str, found: Option<Vec<u8>>) -> (outcome: Result<
        Asset,
        HeisenbergError,
    >)
        ensures
            match outcome {
                Ok(asset) => found matches Some(bytes) && asset.contents@ == bytes@
                    && asset.content_type@ == HTML_CONTENT_TYPE@,
                Err(error) => found is None && error.is_file_not_found(path@, NOT_FOUND_HINT@),
            },
    {
        match found {
            Some(contents) => Ok(
                Asset { contents, content_type: String::from_str(HTML_CONTENT_TYPE) },
            ),
            None => Err(HeisenbergError::file_not_found(path, NOT_FOUND_HINT)),
        }
    }
}

} // verus!
