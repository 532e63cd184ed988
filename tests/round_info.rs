use wal_segment::{CompactionFile, CompactionLevel, TieredRoundInfo};

fn file(level: CompactionLevel, size: i64, min_time: i64, max_time: i64) -> CompactionFile {
    CompactionFile { compaction_level: level, file_size_bytes: size, min_time, max_time }
}

#[test]
fn tiered_round_groups_final_level_chains() {
    let planner = TieredRoundInfo { max_file_size: 100, max_file_size_to_group: 77 };
    let files = vec![
        file(CompactionLevel::Final, 30, 1, 2),
        file(CompactionLevel::Initial, 5, 100, 200),
        file(CompactionLevel::Final, 30, 3, 4),
        file(CompactionLevel::Final, 30, 5, 6),
        // 90 + 30 is not below 100: the chain of three closes here
        file(CompactionLevel::Final, 30, 7, 8),
        file(CompactionLevel::Final, 10, 9, 10),
        // the running size restarts at zero, so 10 + 95 passes the bound
        file(CompactionLevel::Final, 95, 11, 12),
        file(CompactionLevel::Final, 1, 13, 14),
    ];
    let (round, done) = planner.calculate(files);
    assert!(!done);
    assert_eq!(round.ranges.len(), 2);
    assert_eq!(round.ranges[0].files.len(), 3);
    assert_eq!(round.ranges[0].min, 1);
    assert_eq!(round.ranges[0].max, 6);
    assert_eq!(round.ranges[0].max_total_file_size_to_group, 77);
    assert_eq!(round.ranges[1].files.len(), 2);
    assert_eq!(round.ranges[1].min, 7);
    assert_eq!(round.ranges[1].max, 10);
}

#[test]
fn tiered_round_without_final_files_is_empty() {
    let planner = TieredRoundInfo { max_file_size: 100, max_file_size_to_group: 1 };
    let files = vec![
        file(CompactionLevel::Initial, 1, 1, 2),
        file(CompactionLevel::FileNonOverlapped, 1, 3, 4),
    ];
    let (round, done) = planner.calculate(files);
    assert!(!done);
    assert!(round.ranges.is_empty());
}
