//! The rules for the saved state file: where it is read from, what an
//! unreadable file blocks, and how saves that pile up are merged. The host
//! reads and writes the files.

use vstd::prelude::*;

verus! {

/// The newest version of the saved state this library writes and reads.
pub const STATE_VERSION: u32 = 2;

/// Which file the saved state is read from.
#[derive(Debug, Clone, Copy, PartialEq, Eq, Structural)]
pub enum LoadSource {
    /// The state file.
    Current,
    /// The file an older version kept beside the executable.
    Legacy,
    /// None: the state starts empty.
    Nothing,
}

/// The state file when there is one, else the legacy file when there is
/// one.
pub fn load_source(current_exists: bool, legacy_exists: bool) -> (r: LoadSource)
    ensures
        current_exists ==> r == LoadSource::Current,
        !current_exists && legacy_exists ==> r == LoadSource::Legacy,
        !current_exists && !legacy_exists ==> r == LoadSource::Nothing,
{
    if current_exists {
        LoadSource::Current
    } else if legacy_exists {
        LoadSource::Legacy
    } else {
        LoadSource::Nothing
    }
}

/// What reading the saved state gave.
#[derive(Debug, Clone, Copy, PartialEq, Eq, Structural)]
pub enum LoadResult {
    /// Nothing was saved: start empty.
    Fresh,
    /// The saved state is used; read from the legacy file, it is to be
    /// written to the state file (the legacy file stays).
    Restored { migrate: bool },
    /// The file could not be read or is of a newer version: start empty and
    /// leave the file alone.
    Unreadable,
}

/// The result of reading `source`, whose content parsed with version
/// `version` (`None` where it could not be read or parsed).
pub fn load_result(source: LoadSource, version: Option<u32>) -> (r: LoadResult)
    ensures
        source == LoadSource::Nothing ==> r == LoadResult::Fresh,
        source != LoadSource::Nothing ==> match version {
            Some(v) if v <= STATE_VERSION => r == LoadResult::Restored {
                migrate: source == LoadSource::Legacy,
            },
            _ => r == LoadResult::Unreadable,
        },
{
    match source {
        LoadSource::Nothing => LoadResult::Fresh,
        _ => match version {
            Some(v) => if v <= STATE_VERSION {
                LoadResult::Restored { migrate: source == LoadSource::Legacy }
            } else {
                LoadResult::Unreadable
            },
            None => LoadResult::Unreadable,
        },
    }
}

/// Whether saving is blocked after loading, and the error to show: an
/// unreadable file blocks saving until the user retries; a legacy state that
/// could not be written to the new place only says so.
pub fn load_status(result: LoadResult, migration_saved: bool) -> (r: (bool, Option<String>))
    ensures
        r.0 == blocks_saving(result),
        result == LoadResult::Unreadable ==> (r.1 matches Some(e) && e@
            == "保存的数据暂时无法读取，原文件已保留。重试时将先备份原文件。"@),
        result == (LoadResult::Restored { migrate: true }) && !migration_saved ==> (r.1 matches Some(
            e,
        ) && e@ == "旧数据已读取，但暂时无法保存到新位置。请重试。"@),
        result == LoadResult::Fresh || result == (LoadResult::Restored { migrate: false }) || (result
            == (LoadResult::Restored { migrate: true }) && migration_saved) ==> r.1 is None,
{
    match result {
        LoadResult::Unreadable => (
            true,
            Some(String::from_str("保存的数据暂时无法读取，原文件已保留。重试时将先备份原文件。")),
        ),
        LoadResult::Restored { migrate } => if migrate && !migration_saved {
            (false, Some(String::from_str("旧数据已读取，但暂时无法保存到新位置。请重试。")))
        } else {
            (false, None)
        },
        LoadResult::Fresh => (false, None),
    }
}

/// What a save does to the state file.
#[derive(Debug, Clone, PartialEq, Eq)]
pub enum SaveStep {
    /// Nothing: the file is kept; the error is shown.
    Refuse(String),
    /// Copy the kept file aside, then write.
    BackUpThenWrite,
    /// Write.
    Write,
}

/// The step of a save: while an unreadable file blocks saving, only an
/// explicit retry (`recover`) writes, and it first backs the file up.
pub fn save_step(blocked: bool, recover: bool, file_exists: bool) -> (r: SaveStep)
    ensures
        (r is Refuse) == !writes(blocked, recover),
        (r is BackUpThenWrite) == backs_up_first(blocked, recover, file_exists),
        r matches SaveStep::Refuse(e) ==> e@ == "原数据已保留，请重试以备份并恢复保存。"@,
{
    if blocked {
        if !recover {
            return SaveStep::Refuse(String::from_str("原数据已保留，请重试以备份并恢复保存。"));
        }
        if file_exists {
            return SaveStep::BackUpThenWrite;
        }
    }
    SaveStep::Write
}

/// Whether saving stays blocked after a save step: a save is unblocked once
/// a retry got past the backup.
pub fn blocked_after(blocked: bool, step: &SaveStep, backed_up: bool) -> (r: bool)
    ensures
        r == (blocked && match step {
            SaveStep::Refuse(_) => true,
            SaveStep::BackUpThenWrite => !backed_up,
            SaveStep::Write => false,
        }),
{
    blocked && match step {
        SaveStep::Refuse(_) => true,
        SaveStep::BackUpThenWrite => !backed_up,
        SaveStep::Write => false,
    }
}

/// The error of a failed backup; the kept file is unchanged.
pub fn backup_failed() -> (r: String)
    ensures
        r@ == "无法备份原数据，原文件未更改。"@,
{
    String::from_str("无法备份原数据，原文件未更改。")
}

/// The error of a failed write.
pub fn write_failed() -> (r: String)
    ensures
        r@ == "数据暂时无法保存，请检查可用空间后重试。"@,
{
    String::from_str("数据暂时无法保存，请检查可用空间后重试。")
}

/// A save waiting for the writer: only the latest state is written, and a
/// retry asked for by any merged save is kept.
pub struct PendingSave<S> {
    pub revision: u64,
    pub state: S,
    pub recover: bool,
}

/// Merges a new save into the one waiting, if any.
pub fn merge_save<S>(waiting: Option<PendingSave<S>>, revision: u64, state: S, recover: bool) -> (r:
    PendingSave<S>)
    ensures
        r.revision == revision,
        r.state == state,
        r.recover == (recover || (waiting matches Some(w) && w.recover)),
{
    let recover = recover || match &waiting {
        Some(w) => w.recover,
        None => false,
    };
    PendingSave { revision, state, recover }
}

/// Whether loading `result` blocks saving.
pub open spec fn blocks_saving(result: LoadResult) -> bool {
    result == LoadResult::Unreadable
}

/// Whether a save writes the state file.
pub open spec fn writes(blocked: bool, recover: bool) -> bool {
    !blocked || recover
}

/// Whether a save copies the kept file aside first.
pub open spec fn backs_up_first(blocked: bool, recover: bool, file_exists: bool) -> bool {
    blocked && recover && file_exists
}

/// Law: an unreadable state file is never written over without an explicit
/// retry, and a retry backs it up before writing.
pub proof fn lemma_unreadable_file_is_kept(recover: bool, file_exists: bool)
    ensures
        blocks_saving(LoadResult::Unreadable),
        !writes(true, false),
        recover && file_exists ==> backs_up_first(true, recover, file_exists),
{
}

} // verus!
