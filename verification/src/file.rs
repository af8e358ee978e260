//! Uploaded files. A file is kept under the SHA-1 of its content, so the
//! same content is stored once per workspace, and its place is told by its
//! URL: `/files/<workspace>/<3 hex>/<3 hex>/<34 hex>.<extension>`.

use crate::error::AppError;
use crate::text::{
    after_last, chars_of, decimal, decimal_text, find_after_last, find_from, first_at,
    lemma_first_at, parse_u64, same_text, text_of, written_u64,
};
use sha1::{Digest, Sha1};
use vstd::prelude::*;
use vstd::slice::slice_to_vec;
use vstd::string::StringExecFns;
use vstd::utf8::is_ascii_chars;

verus! {

/// A stored file: the workspace that owns it, the extension of the name it
/// was uploaded under, and the hash of its content in hex.
#[derive(Debug, Clone)]
pub struct ChatFile {
    pub ws_id: u64,
    pub ext: String,
    pub hash: String,
}

pub struct ChatFileView {
    pub ws_id: u64,
    pub ext: Seq<char>,
    pub hash: Seq<char>,
}

impl View for ChatFile {
    type V = ChatFileView;

    open spec fn view(&self) -> ChatFileView {
        ChatFileView { ws_id: self.ws_id, ext: self.ext@, hash: self.hash@ }
    }
}

/// The SHA-1 digest of `data`.
pub uninterp spec fn sha1_of(data: Seq<u8>) -> Seq<u8>;

/// `Sha1::digest`: the digest of `data`, which is 20 bytes long.
#[verifier::external_body]
fn sha1_digest(data: &[u8]) -> (digest: Vec<u8>)
    ensures
        digest@ == sha1_of(data@),
        digest@.len() == 20,
{
    Sha1::digest(data).to_vec()
}

/// The lower-case hex digit for a number below 16.
pub open spec fn hex_digit(n: int) -> char {
    if n == 0 {
        '0'
    } else if n == 1 {
        '1'
    } else if n == 2 {
        '2'
    } else if n == 3 {
        '3'
    } else if n == 4 {
        '4'
    } else if n == 5 {
        '5'
    } else if n == 6 {
        '6'
    } else if n == 7 {
        '7'
    } else if n == 8 {
        '8'
    } else if n == 9 {
        '9'
    } else if n == 10 {
        'a'
    } else if n == 11 {
        'b'
    } else if n == 12 {
        'c'
    } else if n == 13 {
        'd'
    } else if n == 14 {
        'e'
    } else {
        'f'
    }
}

/// Bytes written in hex: two lower-case digits for each byte, the high half
/// first.
pub open spec fn hex_text(bytes: Seq<u8>) -> Seq<char>
    decreases bytes.len(),
{
    if bytes.len() == 0 {
        Seq::empty()
    } else {
        hex_text(bytes.drop_last()).push(hex_digit(bytes.last() as int / 16)).push(
            hex_digit(bytes.last() as int % 16),
        )
    }
}

/// `hex::encode`: the bytes in lower-case hex.
#[verifier::external_body]
fn hex_encode(bytes: &Vec<u8>) -> (text: String)
    ensures
        text@ == hex_text(bytes@),
{
    hex::encode(bytes)
}

/// Hex has two characters for each byte, all of them ASCII.
pub proof fn lemma_hex_text(bytes: Seq<u8>)
    ensures
        hex_text(bytes).len() == 2 * bytes.len(),
        is_ascii_chars(hex_text(bytes)),
    decreases bytes.len(),
{
    if bytes.len() > 0 {
        lemma_hex_text(bytes.drop_last());
    }
}

/// What follows the last `.` of a file name; the whole name if it has none.
pub open spec fn extension(filename: Seq<char>) -> Seq<char> {
    filename.subrange(after_last(filename, '.', filename.len() as int), filename.len() as int)
}

/// The place of a file below the directory or URL that holds all files.
pub open spec fn relative_path(file: ChatFileView) -> Seq<char> {
    decimal(file.ws_id as nat) + seq!['/'] + file.hash.subrange(0, 3) + seq!['/']
        + file.hash.subrange(3, 6) + seq!['/'] + file.hash.subrange(6, file.hash.len() as int)
        + seq!['.'] + file.ext
}

/// `base` with `rel` below it, as a path: a `/` is put between them unless
/// `base` is empty or ends in one.
pub open spec fn joined(base: Seq<char>, rel: Seq<char>) -> Seq<char> {
    if base.len() == 0 || base.last() == '/' {
        base + rel
    } else {
        base + seq!['/'] + rel
    }
}

/// What a URL says of a file, or the complaint about the URL.
pub open spec fn file_at(url: Seq<char>) -> Result<ChatFileView, Seq<char>> {
    if !(url.len() >= 7 && url.subrange(0, 7) == "/files/"@) {
        Err("Invalid file path: "@ + url)
    } else {
        let rest = url.subrange(7, url.len() as int);
        let a = first_at(rest, '/', 0);
        let b = first_at(rest, '/', a + 1);
        let c = first_at(rest, '/', b + 1);
        if !(c < rest.len() && first_at(rest, '/', c + 1) == rest.len()) {
            Err("File path does not valid"@)
        } else {
            let name = rest.subrange(c + 1, rest.len() as int);
            let dot = first_at(name, '.', 0);
            match written_u64(rest.subrange(0, a)) {
                None => Err("Invalid workspace id: "@ + rest.subrange(a + 1, b)),
                Some(ws_id) => if dot == name.len() {
                    Err("Invalid file name: "@ + name)
                } else {
                    Ok(
                        ChatFileView {
                            ws_id,
                            ext: name.subrange(dot + 1, name.len() as int),
                            hash: rest.subrange(a + 1, b) + rest.subrange(b + 1, c)
                                + name.subrange(0, dot),
                        },
                    )
                },
            }
        }
    }
}

fn complaint(about: &str, what: &str) -> (err: AppError)
    ensures
        err is ChatFileError,
        err.detail() == about@ + what@,
{
    AppError::ChatFileError(String::from_str(about).concat(what))
}

impl ChatFile {
    /// A file can be placed if its hash has six characters or more and the
    /// first six are ASCII: those are cut into the two directories of its
    /// place, and what follows them is its name.
    pub open spec fn wf(&self) -> bool {
        self.hash@.len() >= 6 && is_ascii_chars(self.hash@.subrange(0, 6))
    }

    /// Whether the file can be placed.
    pub fn is_placeable(&self) -> (ok: bool)
        ensures
            ok == self.wf(),
    {
        let hash = chars_of(self.hash.as_str());
        hash.len() >= 6 && text_of(&hash, 0, 6).as_str().is_ascii()
    }

    /// The file whose content has the SHA-1 digest `digest`, uploaded under
    /// `filename` into workspace `ws_id`.
    pub fn from_digest(ws_id: u64, filename: &str, digest: &Vec<u8>) -> (file: ChatFile)
        ensures
            file.ws_id == ws_id,
            file.ext@ == extension(filename@),
            file.hash@ == hex_text(digest@),
            file.hash@.len() == 2 * digest@.len(),
            digest@.len() >= 3 ==> file.wf(),
    {
        let name = chars_of(filename);
        let at: usize = find_after_last(&name, '.');
        let ext = text_of(&name, at, name.len());
        let hash = hex_encode(digest);
        proof {
            lemma_hex_text(digest@);
        }
        ChatFile { ws_id, ext, hash }
    }

    /// The file that holds `data`, uploaded under `filename` into workspace
    /// `ws_id`.
    pub fn new(ws_id: u64, filename: &str, data: &[u8]) -> (file: ChatFile)
        ensures
            file.wf(),
            file.ws_id == ws_id,
            file.ext@ == extension(filename@),
            file.hash@ == hex_text(sha1_of(data@)),
            file.hash@.len() == 40,
    {
        let digest = sha1_digest(data);
        ChatFile::from_digest(ws_id, filename, &digest)
    }

    /// The file's place below the directory or URL that holds all files:
    /// the workspace, then the hash in three parts, then the extension.
    pub fn hash_to_path(&self) -> (path: String)
        requires
            self.wf(),
        ensures
            path@ == relative_path(self@),
    {
        let hash = chars_of(self.hash.as_str());
        let mut path = decimal_text(self.ws_id as u128);
        path.push('/');
        path.append(text_of(&hash, 0, 3).as_str());
        path.push('/');
        path.append(text_of(&hash, 3, 6).as_str());
        path.push('/');
        path.append(text_of(&hash, 6, hash.len()).as_str());
        path.push('.');
        path.append(self.ext.as_str());
        proof {
            assert(path@ =~= relative_path(self@));
        }
        path
    }

    /// The URL under which the file is served.
    pub fn url(&self) -> (url: String)
        requires
            self.wf(),
        ensures
            url@ == "/files/"@ + relative_path(self@),
    {
        String::from_str("/files/").concat(self.hash_to_path().as_str())
    }

    /// The file's place on disk, below `base_dir`.
    pub fn path(&self, base_dir: &str) -> (path: String)
        requires
            self.wf(),
        ensures
            path@ == joined(base_dir@, relative_path(self@)),
    {
        let base = chars_of(base_dir);
        let mut path = String::from_str(base_dir);
        if base.len() > 0 && base[base.len() - 1] != '/' {
            path.push('/');
        }
        path.append(self.hash_to_path().as_str());
        proof {
            assert(path@ =~= joined(base_dir@, relative_path(self@)));
        }
        path
    }

    /// Reads a file back from its URL. The URL must start with `/files/`
    /// and go on with four parts between slashes: the workspace as a
    /// number, two parts of the hash, and the rest of the hash with the
    /// extension behind its first `.`.
    pub fn from_str(s: &str) -> (res: Result<ChatFile, AppError>)
        ensures
            match file_at(s@) {
                Ok(file) => res matches Ok(f) && f@ == file,
                Err(why) => res matches Err(e) && e is ChatFileError && e.detail() == why,
            },
    {
        let url = chars_of(s);
        if url.len() < 7 || !same_text(text_of(&url, 0, 7).as_str(), "/files/") {
            return Err(complaint("Invalid file path: ", s));
        }
        let rest = slice_to_vec(vstd::slice::slice_subrange(url.as_slice(), 7, url.len()));
        let a: usize = find_from(&rest, '/', 0);
        let b: usize = if a < rest.len() {
            find_from(&rest, '/', a + 1)
        } else {
            rest.len()
        };
        let c: usize = if b < rest.len() {
            find_from(&rest, '/', b + 1)
        } else {
            rest.len()
        };
        if c >= rest.len() || find_from(&rest, '/', c + 1) != rest.len() {
            return Err(AppError::ChatFileError(String::from_str("File path does not valid")));
        }
        proof {
            lemma_first_at(rest@, '/', 0);
            lemma_first_at(rest@, '/', a + 1);
            lemma_first_at(rest@, '/', b + 1);
        }
        let name = slice_to_vec(vstd::slice::slice_subrange(rest.as_slice(), c + 1, rest.len()));
        let ws_id: u64 = match parse_u64(&rest, 0, a) {
            Some(ws_id) => ws_id,
            None => {
                return Err(
                    complaint("Invalid workspace id: ", text_of(&rest, a + 1, b).as_str()),
                );
            },
        };
        let dot: usize = find_from(&name, '.', 0);
        if dot == name.len() {
            return Err(complaint("Invalid file name: ", text_of(&name, 0, name.len()).as_str()));
        }
        let mut hash = text_of(&rest, a + 1, b);
        hash.append(text_of(&rest, b + 1, c).as_str());
        hash.append(text_of(&name, 0, dot).as_str());
        let ext = text_of(&name, dot + 1, name.len());
        Ok(ChatFile { ws_id, ext, hash })
    }
}

impl std::str::FromStr for ChatFile {
    type Err = AppError;

    /// Reads a file back from its URL, as [`ChatFile::from_str`] does.
    fn from_str(s: &str) -> (res: Result<ChatFile, AppError>)
        ensures
            match file_at(s@) {
                Ok(file) => res matches Ok(f) && f@ == file,
                Err(why) => res matches Err(e) && e is ChatFileError && e.detail() == why,
            },
    {
        ChatFile::from_str(s)
    }
}

} // verus!
