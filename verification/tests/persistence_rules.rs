use nanabobo::persistence::{
    blocked_after, load_result, load_source, load_status, merge_save, save_step, LoadResult,
    LoadSource, PendingSave, SaveStep, STATE_VERSION,
};

#[test]
fn the_state_file_is_preferred_to_the_legacy_file() {
    assert_eq!(load_source(true, true), LoadSource::Current);
    assert_eq!(load_source(false, true), LoadSource::Legacy);
    assert_eq!(load_source(false, false), LoadSource::Nothing);
}

#[test]
fn legacy_state_is_migrated_and_newer_versions_are_unreadable() {
    assert_eq!(
        load_result(LoadSource::Legacy, Some(1)),
        LoadResult::Restored { migrate: true }
    );
    assert_eq!(
        load_result(LoadSource::Current, Some(STATE_VERSION)),
        LoadResult::Restored { migrate: false }
    );
    assert_eq!(
        load_result(LoadSource::Current, Some(STATE_VERSION + 1)),
        LoadResult::Unreadable
    );
    assert_eq!(load_result(LoadSource::Current, None), LoadResult::Unreadable);
    assert_eq!(load_result(LoadSource::Nothing, None), LoadResult::Fresh);
}

#[test]
fn corrupt_state_blocks_saving_until_an_explicit_retry_backs_it_up() {
    let (blocked, error) = load_status(LoadResult::Unreadable, true);
    assert!(blocked);
    assert_eq!(
        error.as_deref(),
        Some("保存的数据暂时无法读取，原文件已保留。重试时将先备份原文件。")
    );
    let refused = save_step(blocked, false, true);
    assert_eq!(
        refused,
        SaveStep::Refuse("原数据已保留，请重试以备份并恢复保存。".into())
    );
    assert!(blocked_after(blocked, &refused, false));
    let retry = save_step(blocked, true, true);
    assert_eq!(retry, SaveStep::BackUpThenWrite);
    assert!(blocked_after(blocked, &retry, false));
    assert!(!blocked_after(blocked, &retry, true));
    assert_eq!(save_step(false, false, true), SaveStep::Write);
}

#[test]
fn failed_migration_is_reported_without_blocking() {
    let (blocked, error) = load_status(LoadResult::Restored { migrate: true }, false);
    assert!(!blocked);
    assert_eq!(
        error.as_deref(),
        Some("旧数据已读取，但暂时无法保存到新位置。请重试。")
    );
    assert_eq!(load_status(LoadResult::Restored { migrate: true }, true), (false, None));
}

#[test]
fn merged_saves_keep_the_latest_state_and_a_requested_retry() {
    let first = merge_save(None, 1, "a", true);
    let second = merge_save(Some(first), 2, "b", false);
    assert_eq!(second.revision, 2);
    assert_eq!(second.state, "b");
    assert!(second.recover);
    let third: PendingSave<&str> = merge_save(None, 3, "c", false);
    assert!(!third.recover);
}
