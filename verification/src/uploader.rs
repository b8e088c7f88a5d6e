//! Names and records of uploaded files.

use crate::paths::{display_name, file_name_of};
use crate::text::push_char;
use vstd::prelude::*;
use vstd::string::*;

verus! {

/// A file that was stored for processing.
pub struct UploadedFile {
    pub file_path: String,
    pub file_name: String,
    pub size: usize,
}

/// Characters that may not stand in a stored file's name.
pub open spec fn is_reserved(c: char) -> bool {
    c == '/' || c == '\\' || c == ':' || c == '*' || c == '?' || c == '"' || c == '<' || c == '>'
        || c == '|'
}

/// `name` with an underscore in place of each reserved character.
pub open spec fn sanitized(name: Seq<char>) -> Seq<char> {
    Seq::new(
        name.len(),
        |i: int|
            if is_reserved(name[i]) {
                '_'
            } else {
                name[i]
            },
    )
}

/// The directory that uploads are stored in, with its trailing separator.
pub open spec fn upload_dir() -> Seq<char> {
    "./uploads/"@
}

/// The message for a request that held no file.
pub open spec fn no_files_text() -> Seq<char> {
    "No files provided"@
}

fn is_reserved_char(c: char) -> (reserved: bool)
    ensures
        reserved == is_reserved(c),
{
    c == '/' || c == '\\' || c == ':' || c == '*' || c == '?' || c == '"' || c == '<' || c == '>'
        || c == '|'
}

/// Replaces each reserved character of `name` by an underscore.
pub fn replace_reserved(name: &str) -> (clean: String)
    ensures
        clean@ == sanitized(name@),
{
    let len: usize = name.unicode_len();
    let mut clean = String::new();
    let mut i: usize = 0;
    while i < len
        invariant
            len == name@.len(),
            i <= len,
            clean@ == sanitized(name@).take(i as int),
        decreases len - i,
    {
        let c = name.get_char(i);
        let ghost before = clean@;
        if is_reserved_char(c) {
            push_char(&mut clean, '_');
        } else {
            push_char(&mut clean, c);
        }
        assert(clean@ =~= sanitized(name@).take(i + 1));
        i = i + 1;
    }
    assert(clean@ =~= sanitized(name@));
    clean
}

/// Reduces a client-supplied file name to its final path component and
/// replaces the characters that are reserved in file names by underscores.
pub fn sanitize_filename(filename: &str) -> (clean: String)
    ensures
        clean@ == sanitized(display_name(filename@)),
{
    match file_name_of(filename) {
        Some(base) => replace_reserved(base),
        None => replace_reserved(filename),
    }
}

/// Decides where an uploaded file of `size` bytes, sent under `raw_name`, is
/// stored: nowhere if nothing is left of its name, else under its sanitized
/// name in the upload directory.
pub fn plan_upload(raw_name: &str, size: usize) -> (plan: Option<UploadedFile>)
    ensures
        plan is Some <==> sanitized(display_name(raw_name@)).len() > 0,
        plan is Some ==> {
            &&& plan->Some_0.file_name@ == sanitized(display_name(raw_name@))
            &&& plan->Some_0.file_path@ == upload_dir() + sanitized(display_name(raw_name@))
            &&& plan->Some_0.size == size
        },
{
    let file_name = sanitize_filename(raw_name);
    if file_name.as_str().unicode_len() == 0 {
        return None;
    }
    let mut file_path = "./uploads/".to_owned();
    file_path.append(file_name.as_str());
    Some(UploadedFile { file_path, file_name, size })
}

/// Closes an upload: a request that stored no file is refused.
pub fn finish_upload(files: Vec<UploadedFile>) -> (outcome: Result<Vec<UploadedFile>, String>)
    ensures
        outcome is Ok <==> files.len() > 0,
        outcome is Ok ==> outcome->Ok_0 == files,
        outcome is Err ==> outcome->Err_0@ == no_files_text(),
{
    if files.len() == 0 {
        return Err("No files provided".to_owned());
    }
    Ok(files)
}

} // verus!
