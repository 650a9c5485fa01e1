//! What the local file tools decide and report; the file system itself is
//! reached by the caller, which hands in what it read.
use vstd::prelude::*;
use vstd::string::*;
use vstd::utf8::{decode_utf8, valid_utf8};
use crate::edit::{count_from, replace_all_counted, replace_first, replace_first_occurrence, replace_from};
use crate::guard::{lemma_split_nonempty, split_on, ToolError};
use crate::search::text_lines;
use crate::text::{decimal, str_eq, to_chars, usize_to_string};

verus! {

pub const MAX_READ_BYTES: usize = 256 * 1024;
pub const MAX_WRITE_BYTES: usize = 512 * 1024;
pub const DEFAULT_MAX_RESULTS: usize = 200;
pub const MAX_SEARCH_FILE_BYTES: usize = 512 * 1024;

pub struct ListFilesArgs {
    pub path: Option<String>,
    pub max_results: Option<usize>,
}

pub struct ListFilesOutput {
    pub path: String,
    pub files: Vec<String>,
    pub truncated: bool,
    pub summary: String,
}

pub struct ReadFileArgs {
    pub path: String,
    pub max_bytes: Option<usize>,
}

pub struct ReadFileOutput {
    pub path: String,
    pub content: String,
    pub bytes: usize,
    pub lines: usize,
    pub truncated: bool,
    pub summary: String,
}

pub struct SearchFilesArgs {
    pub query: String,
    pub path: Option<String>,
    pub max_results: Option<usize>,
}

pub struct SearchMatch {
    pub path: String,
    pub line: usize,
    pub text: String,
}

pub struct SearchFilesOutput {
    pub query: String,
    pub matches: Vec<SearchMatch>,
    pub truncated: bool,
    pub summary: String,
}

pub struct WriteFileArgs {
    pub path: String,
    pub content: String,
}

pub struct WriteFileOutput {
    pub path: String,
    pub bytes: usize,
    pub overwritten: bool,
    pub summary: String,
}

pub struct EditFileArgs {
    pub path: String,
    pub old: String,
    pub new: String,
    pub replace_all: Option<bool>,
}

pub struct EditFileOutput {
    pub path: String,
    pub replacements: usize,
    pub bytes: usize,
    pub summary: String,
}

pub struct DeleteFileArgs {
    pub path: String,
}

pub struct DeleteFileOutput {
    pub path: String,
    pub deleted: bool,
    pub summary: String,
}

pub struct DeleteDirectoryArgs {
    pub path: String,
}

pub struct DeleteDirectoryOutput {
    pub path: String,
    pub deleted: bool,
    pub summary: String,
}

/// The cap on results: the requested one (200 by default), never above 1000.
pub open spec fn result_cap(max: Option<usize>) -> nat {
    let m: nat = match max {
        Some(m) => m as nat,
        None => DEFAULT_MAX_RESULTS as nat,
    };
    if m < 1000 { m } else { 1000 }
}

pub fn effective_max_results(max: Option<usize>) -> (r: usize)
    ensures
        r == result_cap(max),
{
    let m = match max {
        Some(m) => m,
        None => DEFAULT_MAX_RESULTS,
    };
    if m < 1000 { m } else { 1000 }
}

/// The path a listing or search starts from: the one given, or `.`.
pub fn target_path(path: &Option<String>) -> (r: String)
    ensures
        path matches Some(p) ==> r@ == p@,
        path is None ==> r@ == "."@,
{
    match path {
        Some(p) => p.clone(),
        None => ".".to_owned(),
    }
}

/// `String::from_utf8`: the text the bytes encode, or `None` when they are
/// not valid UTF-8.
#[verifier::external_body]
fn utf8_decode(bytes: Vec<u8>) -> (r: Option<String>)
    ensures
        r is Some <==> valid_utf8(bytes@),
        r matches Some(s) ==> s@ == decode_utf8(bytes@),
{
    String::from_utf8(bytes).ok()
}

/// How many newline characters `s` holds.
pub open spec fn newline_count(s: Seq<char>) -> nat
    decreases s.len(),
{
    if s.len() == 0 {
        0
    } else {
        newline_count(s.drop_last()) + if s.last() == '\n' { 1nat } else { 0nat }
    }
}

proof fn lemma_newline_count_bound(s: Seq<char>)
    ensures
        newline_count(s) <= s.len(),
    decreases s.len(),
{
    if s.len() > 0 {
        lemma_newline_count_bound(s.drop_last());
    }
}

/// How many lines `str::lines` yields: one per newline, and one more for
/// text after the last newline.
pub open spec fn line_total(s: Seq<char>) -> nat {
    newline_count(s) + if s.len() > 0 && s.last() != '\n' { 1nat } else { 0nat }
}

proof fn lemma_split_lines(s: Seq<char>)
    ensures
        split_on(s, '\n').len() == newline_count(s) + 1,
        (split_on(s, '\n').last().len() == 0) <==> (s.len() == 0 || s.last() == '\n'),
    decreases s.len(),
{
    if s.len() > 0 {
        lemma_split_lines(s.drop_last());
        lemma_split_nonempty(s.drop_last(), '\n');
    }
}

/// The number of lines a read reports is the number of lines that a
/// search goes through: one per newline, and one more for text after the
/// last newline.
pub proof fn law_read_lines_are_search_lines(s: Seq<char>)
    ensures
        line_total(s) == text_lines(s).len(),
        line_total(s) == newline_count(s) + (if s.len() > 0 && s.last() != '\n' { 1nat } else { 0nat }),
{
    lemma_split_lines(s);
    lemma_split_nonempty(s, '\n');
}

pub fn count_lines(text: &str) -> (r: usize)
    ensures
        r == line_total(text@),
{
    let chars = to_chars(text);
    let mut n: usize = 0;
    let mut i: usize = 0;
    while i < chars.len()
        invariant
            chars@ == text@,
            i <= chars.len(),
            n <= i,
            n == newline_count(chars@.take(i as int)),
        decreases chars.len() - i,
    {
        assert(chars@.take(i + 1).drop_last() =~= chars@.take(i as int));
        if chars[i] == '\n' {
            n = n + 1;
        }
        i = i + 1;
    }
    assert(chars@.take(chars.len() as int) =~= chars@);
    if chars.len() > 0 && chars[chars.len() - 1] != '\n' {
        proof {
            lemma_newline_count_bound(chars@.drop_last());
        }
        n = n + 1;
    }
    n
}

/// The read limit: the requested one, never above `MAX_READ_BYTES`.
pub open spec fn read_cap(max: Option<usize>) -> nat {
    match max {
        Some(m) => if m < MAX_READ_BYTES { m as nat } else { MAX_READ_BYTES as nat },
        None => MAX_READ_BYTES as nat,
    }
}

/// The outcome of reading a file: the bytes are cut at the read limit and
/// must then be UTF-8.
pub open spec fn read_bytes_kept(bytes: Seq<u8>, max: Option<usize>) -> Seq<u8> {
    if bytes.len() > read_cap(max) {
        bytes.take(read_cap(max) as int)
    } else {
        bytes
    }
}

/// Limits of the file tools: a listing or search returns at most the
/// requested number of results, 200 when none is requested, and never more
/// than 1000; a read keeps at most the requested number of bytes, and never
/// more than 256 KiB. Bytes within the limit are kept whole, and bytes past
/// it are cut at the limit.
pub proof fn law_tool_limits(max: Option<usize>, bytes: Seq<u8>)
    ensures
        max is None ==> result_cap(max) == 200,
        max is Some && max->0 <= 1000 ==> result_cap(max) == max->0,
        max is Some && max->0 > 1000 ==> result_cap(max) == 1000,
        result_cap(max) <= 1000,
        max is None ==> read_cap(max) == 256 * 1024,
        max is Some && max->0 <= 256 * 1024 ==> read_cap(max) == max->0,
        max is Some && max->0 > 256 * 1024 ==> read_cap(max) == 256 * 1024,
        bytes.len() <= read_cap(max) ==> read_bytes_kept(bytes, max) == bytes,
        bytes.len() > read_cap(max) ==> read_bytes_kept(bytes, max) == bytes.take(read_cap(max) as int),
        read_bytes_kept(bytes, max).len() <= read_cap(max),
        read_bytes_kept(bytes, max) == bytes.take(read_bytes_kept(bytes, max).len() as int),
{
    if bytes.len() <= read_cap(max) {
        assert(bytes.take(bytes.len() as int) =~= bytes);
    }
}

/// A file read back holds what was written: the UTF-8 bytes of a text no
/// longer than the read limit are kept whole and read as that same text.
pub proof fn law_read_gives_back_written(content: Seq<char>, max: Option<usize>)
    requires
        vstd::utf8::encode_utf8(content).len() <= read_cap(max),
    ensures
        read_bytes_kept(vstd::utf8::encode_utf8(content), max) == vstd::utf8::encode_utf8(content),
        valid_utf8(read_bytes_kept(vstd::utf8::encode_utf8(content), max)),
        decode_utf8(read_bytes_kept(vstd::utf8::encode_utf8(content), max)) == content,
{
    vstd::utf8::encode_utf8_valid_utf8(content);
    vstd::utf8::encode_utf8_decode_utf8(content);
}

/// Builds the result of `read_file` from the file's bytes; `shown` is the
/// path as shown to users.
pub fn read_output(args: &ReadFileArgs, shown: String, bytes: Vec<u8>) -> (r: Result<ReadFileOutput, ToolError>)
    ensures
        !valid_utf8(read_bytes_kept(bytes@, args.max_bytes)) ==> (r matches Err(ToolError::InvalidInput(m))
            && m@ == "'"@ + args.path@ + "' is not valid UTF-8"@),
        valid_utf8(read_bytes_kept(bytes@, args.max_bytes)) ==> (r matches Ok(o) && {
            let text = decode_utf8(read_bytes_kept(bytes@, args.max_bytes));
            &&& o.path@ == shown@
            &&& o.content@ == text
            &&& o.bytes == vstd::utf8::encode_utf8(text).len() as usize
            &&& o.lines == line_total(text)
            &&& o.truncated == (bytes@.len() > read_cap(args.max_bytes))
            &&& o.summary@ == "Read "@ + decimal(o.lines as nat) + " lines from "@ + shown@
        }),
{
    let max_bytes = match args.max_bytes {
        Some(m) => if m < MAX_READ_BYTES { m } else { MAX_READ_BYTES },
        None => MAX_READ_BYTES,
    };
    let ghost orig = bytes@;
    let mut bytes = bytes;
    let truncated = bytes.len() > max_bytes;
    if truncated {
        bytes.truncate(max_bytes);
    }
    assert(bytes@ =~= read_bytes_kept(orig, args.max_bytes));
    match utf8_decode(bytes) {
        None => {
            let mut m = "'".to_owned();
            m.append(args.path.as_str());
            m.append("' is not valid UTF-8");
            Err(ToolError::InvalidInput(m))
        },
        Some(content) => {
            let byte_len = content.as_str().len();
            let lines = count_lines(content.as_str());
            let mut summary = "Read ".to_owned();
            summary.append(usize_to_string(lines).as_str());
            summary.append(" lines from ");
            summary.append(shown.as_str());
            Ok(ReadFileOutput {
                path: shown,
                content,
                bytes: byte_len,
                lines,
                truncated,
                summary,
            })
        },
    }
}

/// Refuses content above the write limit.
pub fn check_write_size(content: &str) -> (r: Result<(), ToolError>)
    ensures
        content.len() > MAX_WRITE_BYTES ==> (r matches Err(ToolError::InvalidInput(m)) && m@
            == "content is too large; limit is 524288 bytes"@),
        content.len() <= MAX_WRITE_BYTES ==> r is Ok,
{
    if content.len() > MAX_WRITE_BYTES {
        return Err(ToolError::InvalidInput("content is too large; limit is 524288 bytes".to_owned()));
    }
    Ok(())
}

/// The result of `write_file` once the content is written.
pub fn write_output(shown: String, bytes: usize, overwritten: bool) -> (r: WriteFileOutput)
    ensures
        r.path@ == shown@,
        r.bytes == bytes,
        r.overwritten == overwritten,
        r.summary@ == (if overwritten { "Updated "@ } else { "Created "@ }) + shown@ + " ("@
            + decimal(bytes as nat) + " bytes)"@,
{
    let mut summary = if overwritten { "Updated ".to_owned() } else { "Created ".to_owned() };
    summary.append(shown.as_str());
    summary.append(" (");
    summary.append(usize_to_string(bytes).as_str());
    summary.append(" bytes)");
    WriteFileOutput { path: shown, bytes, overwritten, summary }
}

/// Refuses an edit whose text to replace is empty.
pub fn check_edit_args(args: &EditFileArgs) -> (r: Result<(), ToolError>)
    ensures
        args.old@.len() == 0 ==> (r matches Err(ToolError::InvalidInput(m)) && m@
            == "old text must not be empty"@),
        args.old@.len() > 0 ==> r is Ok,
{
    if args.old.as_str().is_empty() {
        return Err(ToolError::InvalidInput("old text must not be empty".to_owned()));
    }
    Ok(())
}

/// The new file text and the result of `edit_file`, from the file's current
/// text: with `replace_all` every occurrence is replaced and there must be
/// one; otherwise there must be exactly one.
pub fn edit_outcome(args: &EditFileArgs, shown: String, content: &str) -> (r: Result<(EditFileOutput, String), ToolError>)
    ensures
        ({
            let n = count_from(content@, args.old@, 0);
            let all = args.replace_all == Some(true);
            &&& args.old@.len() == 0 ==> (r matches Err(ToolError::InvalidInput(m)) && m@
                == "old text must not be empty"@)
            &&& args.old@.len() > 0 && all && n == 0 ==> (r matches Err(ToolError::InvalidInput(m))
                && m@ == "old text was not found"@)
            &&& args.old@.len() > 0 && all && n > 0 ==> (r matches Ok((o, text)) && {
                &&& text@ == replace_from(content@, args.old@, args.new@, 0)
                &&& o.path@ == shown@
                &&& o.replacements == n
                &&& o.bytes == vstd::utf8::encode_utf8(text@).len() as usize
                &&& o.summary@ == "Updated "@ + shown@ + " with "@ + decimal(n) + " replacements"@
            })
            &&& args.old@.len() > 0 && !all && n != 1 ==> (r matches Err(ToolError::InvalidInput(m))
                && m@ == "expected exactly one match, found "@ + decimal(n))
            &&& args.old@.len() > 0 && !all && n == 1 ==> (r matches Ok((o, text)) && {
                &&& text@ == replace_first(content@, args.old@, args.new@)
                &&& o.path@ == shown@
                &&& o.replacements == 1
                &&& o.bytes == vstd::utf8::encode_utf8(text@).len() as usize
                &&& o.summary@ == "Updated "@ + shown@ + " with 1 replacement"@
            })
        }),
{
    check_edit_args(args)?;
    let (all_text, count) = replace_all_counted(content, args.old.as_str(), args.new.as_str());
    let replace_all = match args.replace_all {
        Some(b) => b,
        None => false,
    };
    if replace_all {
        if count == 0 {
            return Err(ToolError::InvalidInput("old text was not found".to_owned()));
        }
        let mut summary = "Updated ".to_owned();
        summary.append(shown.as_str());
        summary.append(" with ");
        summary.append(usize_to_string(count).as_str());
        summary.append(" replacements");
        let bytes = all_text.as_str().len();
        return Ok((EditFileOutput { path: shown, replacements: count, bytes, summary }, all_text));
    }
    if count != 1 {
        let mut m = "expected exactly one match, found ".to_owned();
        m.append(usize_to_string(count).as_str());
        return Err(ToolError::InvalidInput(m));
    }
    let updated = replace_first_occurrence(content, args.old.as_str(), args.new.as_str());
    let mut summary = "Updated ".to_owned();
    summary.append(shown.as_str());
    summary.append(" with 1 replacement");
    let bytes = updated.as_str().len();
    Ok((EditFileOutput { path: shown, replacements: 1, bytes, summary }, updated))
}

/// The result of `delete_file` once the file is removed.
pub fn delete_file_output(shown: String) -> (r: DeleteFileOutput)
    ensures
        r.path@ == shown@,
        r.deleted,
        r.summary@ == "Deleted "@ + shown@,
{
    let mut summary = "Deleted ".to_owned();
    summary.append(shown.as_str());
    DeleteFileOutput { path: shown, deleted: true, summary }
}

/// Refuses to delete the workspace root itself.
pub fn check_delete_directory(shown: &str) -> (r: Result<(), ToolError>)
    ensures
        shown@ == "."@ ==> (r matches Err(ToolError::Denied(m)) && m@
            == "refusing to delete the workspace root"@),
        shown@ != "."@ ==> r is Ok,
{
    if str_eq(shown, ".") {
        return Err(ToolError::Denied("refusing to delete the workspace root".to_owned()));
    }
    Ok(())
}

/// The result of `delete_directory` once the directory is removed.
pub fn delete_directory_output(shown: String) -> (r: DeleteDirectoryOutput)
    ensures
        r.path@ == shown@,
        r.deleted,
        r.summary@ == "Deleted empty directory "@ + shown@,
{
    let mut summary = "Deleted empty directory ".to_owned();
    summary.append(shown.as_str());
    DeleteDirectoryOutput { path: shown, deleted: true, summary }
}

} // verus!
