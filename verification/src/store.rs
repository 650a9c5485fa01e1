//! How authored tools are stored: the text codes of their language, status
//! and risk, and the rows the management view is built from.
use vstd::prelude::*;
use vstd::string::*;
use serde_json::Value;
use crate::ids::{uuid_string, uuid_text};
use crate::app::{join_names, join_strings};
use crate::protocol::{
    clone_opt_string, clone_opt_value, clone_value, part_views, ChatMessage, PartView,
    SessionSummary, ToolRisk, ToolRow, ToolScriptLanguage, ToolTestCase, ToolVersionRow,
    ToolVersionStatus, UiMessage, UiPart, UiRole,
};
use crate::text::{str_eq, string_views};

verus! {

pub const STATUS_DRAFT: &'static str = "draft";
pub const STATUS_ACTIVE: &'static str = "active";
pub const STATUS_DEPRECATED: &'static str = "deprecated";
pub const LANG_PYTHON: &'static str = "python";
pub const LANG_SHELL: &'static str = "shell";

/// The stored code of a script language.
pub open spec fn language_code(l: ToolScriptLanguage) -> Seq<char> {
    match l {
        ToolScriptLanguage::Python => "python"@,
        ToolScriptLanguage::Shell => "shell"@,
    }
}

/// The language a stored code names; anything but `shell` reads as Python.
pub open spec fn language_of(code: Seq<char>) -> ToolScriptLanguage {
    if code == "shell"@ {
        ToolScriptLanguage::Shell
    } else {
        ToolScriptLanguage::Python
    }
}

/// The status a stored code names; anything unknown reads as a draft.
pub open spec fn status_of(code: Seq<char>) -> ToolVersionStatus {
    if code == "active"@ {
        ToolVersionStatus::Active
    } else if code == "deprecated"@ {
        ToolVersionStatus::Deprecated
    } else {
        ToolVersionStatus::Draft
    }
}

/// The stored code of a risk.
pub open spec fn risk_code(r: ToolRisk) -> Seq<char> {
    match r {
        ToolRisk::ReadOnly => "read_only"@,
        ToolRisk::WritesFiles => "writes_files"@,
        ToolRisk::DeletesFiles => "deletes_files"@,
        ToolRisk::DeletesDirectories => "deletes_directories"@,
        ToolRisk::Network => "network"@,
        ToolRisk::ExternalProcess => "external_process"@,
    }
}

/// The risk a stored code names; anything unknown reads as running an
/// external process, the widest risk.
pub open spec fn risk_of(code: Seq<char>) -> ToolRisk {
    if code == "read_only"@ {
        ToolRisk::ReadOnly
    } else if code == "writes_files"@ {
        ToolRisk::WritesFiles
    } else if code == "deletes_files"@ {
        ToolRisk::DeletesFiles
    } else if code == "deletes_directories"@ {
        ToolRisk::DeletesDirectories
    } else if code == "network"@ {
        ToolRisk::Network
    } else {
        ToolRisk::ExternalProcess
    }
}

pub fn language_to_str(lang: ToolScriptLanguage) -> (r: &'static str)
    ensures
        r@ == language_code(lang),
{
    match lang {
        ToolScriptLanguage::Python => LANG_PYTHON,
        ToolScriptLanguage::Shell => LANG_SHELL,
    }
}

pub fn language_from_str(value: &str) -> (r: ToolScriptLanguage)
    ensures
        r == language_of(value@),
{
    if str_eq(value, LANG_SHELL) {
        ToolScriptLanguage::Shell
    } else {
        ToolScriptLanguage::Python
    }
}

pub fn status_from_str(value: &str) -> (r: ToolVersionStatus)
    ensures
        r == status_of(value@),
{
    if str_eq(value, STATUS_ACTIVE) {
        ToolVersionStatus::Active
    } else if str_eq(value, STATUS_DEPRECATED) {
        ToolVersionStatus::Deprecated
    } else {
        ToolVersionStatus::Draft
    }
}

pub fn risk_to_str(risk: &ToolRisk) -> (r: &'static str)
    ensures
        r@ == risk_code(*risk),
{
    match risk {
        ToolRisk::ReadOnly => "read_only",
        ToolRisk::WritesFiles => "writes_files",
        ToolRisk::DeletesFiles => "deletes_files",
        ToolRisk::DeletesDirectories => "deletes_directories",
        ToolRisk::Network => "network",
        ToolRisk::ExternalProcess => "external_process",
    }
}

pub fn risk_from_str(value: &str) -> (r: ToolRisk)
    ensures
        r == risk_of(value@),
{
    if str_eq(value, "read_only") {
        ToolRisk::ReadOnly
    } else if str_eq(value, "writes_files") {
        ToolRisk::WritesFiles
    } else if str_eq(value, "deletes_files") {
        ToolRisk::DeletesFiles
    } else if str_eq(value, "deletes_directories") {
        ToolRisk::DeletesDirectories
    } else if str_eq(value, "network") {
        ToolRisk::Network
    } else {
        ToolRisk::ExternalProcess
    }
}

/// The stored codes: risks are kept as `read_only`, `writes_files`,
/// `deletes_files`, `deletes_directories`, `network` and
/// `external_process`, and a code that is none of the first five reads as
/// an external process; languages as `python` and `shell`, and a code other
/// than `shell` reads as Python; statuses `active` and `deprecated` read as
/// such, and any other code as a draft.
pub proof fn law_stored_code_table(code: Seq<char>)
    ensures
        risk_code(ToolRisk::ReadOnly) == "read_only"@,
        risk_code(ToolRisk::WritesFiles) == "writes_files"@,
        risk_code(ToolRisk::DeletesFiles) == "deletes_files"@,
        risk_code(ToolRisk::DeletesDirectories) == "deletes_directories"@,
        risk_code(ToolRisk::Network) == "network"@,
        risk_code(ToolRisk::ExternalProcess) == "external_process"@,
        code == "read_only"@ ==> risk_of(code) == ToolRisk::ReadOnly,
        code == "writes_files"@ ==> risk_of(code) == ToolRisk::WritesFiles,
        code == "deletes_files"@ ==> risk_of(code) == ToolRisk::DeletesFiles,
        code == "deletes_directories"@ ==> risk_of(code) == ToolRisk::DeletesDirectories,
        code == "network"@ ==> risk_of(code) == ToolRisk::Network,
        code != "read_only"@ && code != "writes_files"@ && code != "deletes_files"@ && code
            != "deletes_directories"@ && code != "network"@ ==> risk_of(code) == ToolRisk::ExternalProcess,
        language_code(ToolScriptLanguage::Python) == "python"@,
        language_code(ToolScriptLanguage::Shell) == "shell"@,
        (language_of(code) == ToolScriptLanguage::Shell) <==> code == "shell"@,
        code == "active"@ ==> status_of(code) == ToolVersionStatus::Active,
        code == "deprecated"@ ==> status_of(code) == ToolVersionStatus::Deprecated,
        code != "active"@ && code != "deprecated"@ ==> status_of(code) == ToolVersionStatus::Draft,
{
    reveal_strlit("read_only");
    reveal_strlit("writes_files");
    reveal_strlit("deletes_files");
    reveal_strlit("deletes_directories");
    reveal_strlit("network");
    reveal_strlit("active");
    reveal_strlit("deprecated");
    assert("read_only"@.len() != "writes_files"@.len());
    assert("read_only"@.len() != "deletes_files"@.len());
    assert("read_only"@.len() != "deletes_directories"@.len());
    assert("read_only"@.len() != "network"@.len());
    assert("writes_files"@.len() != "deletes_files"@.len());
    assert("writes_files"@.len() != "deletes_directories"@.len());
    assert("writes_files"@.len() != "network"@.len());
    assert("deletes_files"@.len() != "deletes_directories"@.len());
    assert("deletes_files"@.len() != "network"@.len());
    assert("deletes_directories"@.len() != "network"@.len());
    assert("active"@.len() != "deprecated"@.len());
}

/// A risk stored by its code reads back as the same risk.
pub proof fn law_risk_code_round_trip(r: ToolRisk)
    ensures
        risk_of(risk_code(r)) == r,
{
    reveal_strlit("read_only");
    reveal_strlit("writes_files");
    reveal_strlit("deletes_files");
    reveal_strlit("deletes_directories");
    reveal_strlit("network");
    reveal_strlit("external_process");
    let c = risk_code(r);
    if r != ToolRisk::ReadOnly {
        assert(c[0] != "read_only"@[0] || c.len() != "read_only"@.len());
    }
    if r != ToolRisk::ReadOnly && r != ToolRisk::WritesFiles {
        assert(c[0] != "writes_files"@[0] || c.len() != "writes_files"@.len());
    }
    if r != ToolRisk::ReadOnly && r != ToolRisk::WritesFiles && r != ToolRisk::DeletesFiles {
        assert(c[0] != "deletes_files"@[0] || c.len() != "deletes_files"@.len());
    }
    if r == ToolRisk::Network || r == ToolRisk::ExternalProcess {
        assert(c[0] != "deletes_directories"@[0]);
    }
    if r == ToolRisk::ExternalProcess {
        assert(c[0] != "network"@[0]);
    }
}

/// A script language stored by its code reads back as the same language.
pub proof fn law_language_code_round_trip(l: ToolScriptLanguage)
    ensures
        language_of(language_code(l)) == l,
{
    reveal_strlit("python");
    reveal_strlit("shell");
    assert("python"@.len() != "shell"@.len());
}

/// A stored tool, with its identifiers as 128-bit values and its update
/// time in seconds since the Unix epoch.
pub struct ToolModel {
    pub id: u128,
    pub name: String,
    pub current_version_id: Option<u128>,
    pub owner: Option<String>,
    pub updated_at_secs: i64,
}

/// A stored version of a tool.
pub struct VersionModel {
    pub id: u128,
    pub tool_id: u128,
    pub version: i32,
    pub language: String,
    pub script: String,
    pub args_schema: Value,
    pub output_schema: Option<Value>,
    pub tests: Value,
    pub status: String,
    pub risk: String,
    pub timeout_ms: i32,
    pub description: String,
    pub created_at_secs: i64,
}

/// The row of a stored version; `tests` are its test cases as read from the
/// stored JSON (none where it does not read as a list of cases).
pub fn to_version_row(version: &VersionModel, tests: Vec<ToolTestCase>) -> (r: ToolVersionRow)
    ensures
        r.id@ == uuid_text(version.id),
        r.tool_id@ == uuid_text(version.tool_id),
        r.version == version.version,
        r.language == language_of(version.language@),
        r.script == version.script,
        r.args_schema == version.args_schema,
        r.output_schema == version.output_schema,
        r.tests == tests,
        r.status == status_of(version.status@),
        r.risk == risk_of(version.risk@),
        r.timeout_ms == version.timeout_ms,
        r.description == version.description,
        r.created_at_secs == version.created_at_secs as u64,
{
    ToolVersionRow {
        id: uuid_string(version.id),
        tool_id: uuid_string(version.tool_id),
        version: version.version,
        language: language_from_str(version.language.as_str()),
        script: version.script.clone(),
        args_schema: clone_value(&version.args_schema),
        output_schema: clone_opt_value(&version.output_schema),
        tests,
        status: status_from_str(version.status.as_str()),
        risk: risk_from_str(version.risk.as_str()),
        timeout_ms: version.timeout_ms,
        description: version.description.clone(),
        created_at_secs: version.created_at_secs as u64,
    }
}

/// The management row of a stored tool with the rows of its versions.
pub fn to_tool_row(tool: &ToolModel, versions: Vec<ToolVersionRow>) -> (r: ToolRow)
    ensures
        r.id@ == uuid_text(tool.id),
        r.name == tool.name,
        match tool.current_version_id {
            Some(v) => r.current_version_id matches Some(s) && s@ == uuid_text(v),
            None => r.current_version_id is None,
        },
        r.owner == tool.owner,
        r.updated_at_secs == tool.updated_at_secs as u64,
        r.versions == versions,
{
    ToolRow {
        id: uuid_string(tool.id),
        name: tool.name.clone(),
        current_version_id: match tool.current_version_id {
            Some(v) => Some(uuid_string(v)),
            None => None,
        },
        owner: clone_opt_string(&tool.owner),
        updated_at_secs: tool.updated_at_secs as u64,
        versions,
    }
}

/// The number the next version of a tool gets: one more than its latest,
/// or 1 for its first.
pub fn next_version_number(latest: Option<i32>) -> (r: i32)
    requires
        latest matches Some(v) ==> v < i32::MAX,
    ensures
        r == (match latest {
            Some(v) => v + 1,
            None => 1,
        }),
{
    match latest {
        Some(v) => v + 1,
        None => 1,
    }
}

/// Why a version may not be deleted: it is the one its tool runs.
pub fn check_version_deletable(version_id: u128, current_version_id: Option<u128>) -> (r: Result<(), String>)
    ensures
        current_version_id == Some(version_id) ==> (r matches Err(m) && m@
            == "cannot delete the currently active version"@),
        current_version_id != Some(version_id) ==> r is Ok,
{
    match current_version_id {
        Some(c) => if c == version_id {
            Err("cannot delete the currently active version".to_owned())
        } else {
            Ok(())
        },
        None => Ok(()),
    }
}

/// The texts of the non-empty text parts of a message, in order.
pub open spec fn texts_of(parts: Seq<PartView>) -> Seq<Seq<char>>
    decreases parts.len(),
{
    if parts.len() == 0 {
        Seq::empty()
    } else {
        let before = texts_of(parts.drop_last());
        match parts.last() {
            PartView::Text(c) => if c.len() > 0 { before.push(c) } else { before },
            _ => before,
        }
    }
}

/// The text of a stored message as the model's history gets it: its
/// non-empty text parts joined by newlines.
pub fn text_content(parts: &Vec<UiPart>) -> (r: String)
    ensures
        r@ == join_names(texts_of(part_views(parts@)), "\n"@),
{
    let mut texts: Vec<String> = Vec::new();
    let ghost pv = part_views(parts@);
    let mut i: usize = 0;
    assert(pv.take(0) =~= Seq::<PartView>::empty());
    while i < parts.len()
        invariant
            pv == part_views(parts@),
            i <= parts@.len(),
            string_views(texts@) == texts_of(pv.take(i as int)),
        decreases parts.len() - i,
    {
        assert(pv.take(i + 1).drop_last() =~= pv.take(i as int));
        assert(pv.take(i + 1).last() == parts@[i as int]@);
        match &parts[i] {
            UiPart::Text { content } => {
                if !content.as_str().is_empty() {
                    let ghost before = texts@;
                    texts.push(content.clone());
                    assert(string_views(texts@) =~= string_views(before).push(content@));
                }
            },
            _ => {},
        }
        i = i + 1;
    }
    assert(pv.take(parts@.len() as int) =~= pv);
    join_strings(&texts, "\n")
}

/// A stored message as the model's history gets it: none when its parts do
/// not read back or it has no text.
pub fn history_message(role: String, parts: Option<Vec<UiPart>>) -> (r: Option<ChatMessage>)
    ensures
        match parts {
            Some(ps) => {
                let t = join_names(texts_of(part_views(ps@)), "\n"@);
                if t.len() == 0 {
                    r is None
                } else {
                    r matches Some(m) && m.role == role && m.content@ == t
                }
            },
            None => r is None,
        },
{
    match parts {
        None => None,
        Some(ps) => {
            let content = text_content(&ps);
            if content.as_str().is_empty() {
                None
            } else {
                Some(ChatMessage { role, content })
            }
        },
    }
}

/// A stored message as the client shows it: from the user when stored so,
/// else from the assistant.
pub fn ui_message(role: &str, parts: Vec<UiPart>) -> (r: UiMessage)
    ensures
        r.role == (if role@ == "user"@ { UiRole::User } else { UiRole::Assistant }),
        r.parts == parts,
{
    UiMessage { role: if str_eq(role, "user") { UiRole::User } else { UiRole::Assistant }, parts }
}

/// A session as listed, from its stored row.
pub fn session_summary(id: String, title: String, updated_at_secs: i64, message_count: i64) -> (r: SessionSummary)
    ensures
        r.id == id,
        r.title == title,
        r.updated_at_secs == updated_at_secs as u64,
        r.message_count == message_count as u64,
{
    SessionSummary {
        id,
        title,
        updated_at_secs: updated_at_secs as u64,
        message_count: message_count as u64,
    }
}

/// The statuses of a tool's versions once the one at `target` is made the
/// active one: it becomes active, a version active before is deprecated,
/// the others keep their status.
pub open spec fn promoted(s: Seq<ToolVersionStatus>, target: int) -> Seq<ToolVersionStatus> {
    Seq::new(
        s.len(),
        |i: int|
            if i == target {
                ToolVersionStatus::Active
            } else if s[i] == ToolVersionStatus::Active {
                ToolVersionStatus::Deprecated
            } else {
                s[i]
            },
    )
}

pub fn promote_statuses(statuses: &Vec<ToolVersionStatus>, target: usize) -> (r: Vec<ToolVersionStatus>)
    requires
        target < statuses@.len(),
    ensures
        r@ == promoted(statuses@, target as int),
{
    let mut out: Vec<ToolVersionStatus> = Vec::new();
    let mut i: usize = 0;
    while i < statuses.len()
        invariant
            i <= statuses@.len(),
            out@ == promoted(statuses@, target as int).take(i as int),
        decreases statuses.len() - i,
    {
        let s = if i == target {
            ToolVersionStatus::Active
        } else if statuses[i] == ToolVersionStatus::Active {
            ToolVersionStatus::Deprecated
        } else {
            statuses[i]
        };
        out.push(s);
        i = i + 1;
        assert(out@ =~= promoted(statuses@, target as int).take(i as int));
    }
    assert(promoted(statuses@, target as int).take(i as int) =~= promoted(statuses@, target as int));
    out
}

/// After a version is made active, it is the tool's only active version.
pub proof fn law_one_active_after_promotion(s: Seq<ToolVersionStatus>, target: int)
    requires
        0 <= target < s.len(),
    ensures
        promoted(s, target)[target] == ToolVersionStatus::Active,
        forall|i: int|
            0 <= i < s.len() && i != target ==> #[trigger] promoted(s, target)[i] != ToolVersionStatus::Active,
{
}

} // verus!
