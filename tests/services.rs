use wsl_tamer::cache::{CacheRead, DistroCache, DISTRO_CACHE_TTL_MS};
use wsl_tamer::gateway::{attach_usb_args, detach_usb_args, mount_folder_command, WslCommand};
use wsl_tamer::rate_limit::{is_rate_limited, rate_limit, RateLimitKey, RateLimiter};
use wsl_tamer::relocate::{
    temp_artifact_name, CloneDistribution, GatewayOp, MoveDistribution, RelocateError, Step,
};

const LISTING: &str = "  NAME      STATE           VERSION\n* Ubuntu    Running         2\n";

fn names(read: CacheRead) -> Vec<String> {
    match read {
        CacheRead::Cached(v) => v.into_iter().map(|d| d.name).collect(),
        CacheRead::Refresh => panic!("asked for a refresh"),
        CacheRead::Busy => panic!("busy"),
    }
}

#[test]
fn two_reads_within_ttl_query_once() {
    let mut cache = DistroCache::new();
    assert!(matches!(cache.begin_read(1_000), CacheRead::Refresh));
    let first = cache.finish_refresh(Ok(LISTING.to_string()), 1_000).unwrap();
    assert_eq!(first[0].name, "Ubuntu");
    assert_eq!(names(cache.begin_read(1_000 + DISTRO_CACHE_TTL_MS - 1)), vec!["Ubuntu".to_string()]);
}

#[test]
fn read_after_ttl_queries_again() {
    let mut cache = DistroCache::new();
    assert!(matches!(cache.begin_read(0), CacheRead::Refresh));
    cache.finish_refresh(Ok(LISTING.to_string()), 0).unwrap();
    assert!(matches!(cache.begin_read(DISTRO_CACHE_TTL_MS), CacheRead::Refresh));
    cache.finish_refresh(Ok("Debian Stopped 2".to_string()), DISTRO_CACHE_TTL_MS).unwrap();
    assert_eq!(names(cache.begin_read(DISTRO_CACHE_TTL_MS + 5)), vec!["Debian".to_string()]);
}

#[test]
fn concurrent_reads_during_refresh() {
    let mut cache = DistroCache::new();
    assert!(matches!(cache.begin_read(10), CacheRead::Refresh));
    for t in 11..20u64 {
        assert!(matches!(cache.begin_read(t), CacheRead::Busy));
    }
    cache.finish_refresh(Ok(LISTING.to_string()), 20).unwrap();
    let later = 20 + DISTRO_CACHE_TTL_MS;
    assert!(matches!(cache.begin_read(later), CacheRead::Refresh));
    for t in later + 1..later + 10 {
        assert_eq!(names(cache.begin_read(t)), vec!["Ubuntu".to_string()]);
    }
}

#[test]
fn failed_refresh_clears_flag_and_keeps_entry() {
    let mut cache = DistroCache::new();
    assert!(matches!(cache.begin_read(0), CacheRead::Refresh));
    assert_eq!(cache.finish_refresh(Err("boom".to_string()), 0).unwrap_err(), "boom");
    assert!(matches!(cache.begin_read(1), CacheRead::Refresh));
}

#[test]
fn invalidate_and_force_refresh() {
    let mut cache = DistroCache::new();
    cache.refresh_distributions(Ok(LISTING.to_string()), 0).unwrap();
    assert_eq!(names(cache.begin_read(1)), vec!["Ubuntu".to_string()]);
    cache.invalidate_distro_cache();
    assert!(matches!(cache.begin_read(2), CacheRead::Refresh));
}

fn run_op(step: Step) -> GatewayOp {
    match step {
        Step::Run(op) => op,
        Step::Done(r) => panic!("finished early: {:?}", r),
    }
}

#[test]
fn move_import_failure_keeps_original() {
    let mut m = MoveDistribution::new("Ubuntu", "D:\\wsl", "A.tar", "B.tar");
    let op1 = run_op(m.next(Ok(())));
    assert_eq!(op1, GatewayOp::Export { name: "Ubuntu".into(), artifact: "A.tar".into() });
    let op2 = run_op(m.next(Ok(())));
    assert_eq!(
        op2,
        GatewayOp::Import { name: "Ubuntu-wsl-tamer-moving".into(), location: "D:\\wsl".into(), artifact: "A.tar".into() }
    );
    let op3 = run_op(m.next(Err("disk full".into())));
    assert_eq!(op3, GatewayOp::RemoveArtifact { artifact: "A.tar".into() });
    match m.next(Ok(())) {
        Step::Done(Err(RelocateError::Failed(msg))) => {
            assert_eq!(msg, "Failed to import at new location (original preserved): disk full")
        },
        other => panic!("unexpected {:?}", other),
    }
}

#[test]
fn move_rename_failure_names_survivor() {
    let mut m = MoveDistribution::new("Ubuntu", "D:\\wsl", "A.tar", "B.tar");
    run_op(m.next(Ok(())));
    run_op(m.next(Ok(())));
    run_op(m.next(Ok(())));
    assert_eq!(run_op(m.next(Ok(()))), GatewayOp::Unregister { name: "Ubuntu".into() });
    assert_eq!(
        run_op(m.next(Ok(()))),
        GatewayOp::Export { name: "Ubuntu-wsl-tamer-moving".into(), artifact: "B.tar".into() }
    );
    assert_eq!(run_op(m.next(Err("io".into()))), GatewayOp::RemoveArtifact { artifact: "B.tar".into() });
    match m.next(Ok(())) {
        Step::Done(Err(RelocateError::PartialFailure { surviving, message })) => {
            assert_eq!(surviving, "Ubuntu-wsl-tamer-moving");
            assert_eq!(message, "Move succeeded but rename failed (distro available as 'Ubuntu-wsl-tamer-moving'): io");
        },
        other => panic!("unexpected {:?}", other),
    }
}

#[test]
fn move_succeeds_through_all_phases() {
    let mut m = MoveDistribution::new("Deb", "E:\\x", "a", "b");
    let mut ops = Vec::new();
    let result = loop {
        match m.next(Ok(())) {
            Step::Run(op) => ops.push(op),
            Step::Done(r) => break r,
        }
    };
    assert!(result.is_ok());
    assert_eq!(ops.len(), 8);
    assert_eq!(ops[6], GatewayOp::Import { name: "Deb".into(), location: "E:\\x".into(), artifact: "b".into() });
    assert_eq!(ops[7], GatewayOp::RemoveArtifact { artifact: "b".into() });
}

#[test]
fn clone_cleans_up_whatever_happens() {
    let mut c = CloneDistribution::new("Ubuntu", "Copy", "D:\\c", "t.tar");
    assert_eq!(run_op(c.next(Ok(()))), GatewayOp::Export { name: "Ubuntu".into(), artifact: "t.tar".into() });
    assert_eq!(
        run_op(c.next(Ok(()))),
        GatewayOp::Import { name: "Copy".into(), location: "D:\\c".into(), artifact: "t.tar".into() }
    );
    assert_eq!(run_op(c.next(Err("bad tar".into()))), GatewayOp::RemoveArtifact { artifact: "t.tar".into() });
    match c.next(Err("cannot delete".into())) {
        Step::Done(Err(e)) => assert_eq!(e.message(), "bad tar"),
        other => panic!("unexpected {:?}", other),
    }
}

#[test]
fn artifact_names_are_unique() {
    let a = temp_artifact_name("Ubuntu", "move");
    let b = temp_artifact_name("Ubuntu", "move");
    assert!(a.starts_with("Ubuntu_move_"));
    assert!(a.ends_with(".tar"));
    assert_eq!(a.len(), "Ubuntu_move_".len() + 36 + 4);
    assert_ne!(a, b);
}

#[test]
fn command_lines() {
    assert_eq!(WslCommand::ListVerbose.args(), vec!["--list", "--verbose"]);
    assert_eq!(WslCommand::Terminate { name: "Ubuntu".into() }.args(), vec!["--terminate", "Ubuntu"]);
    let mount = mount_folder_command("Ubuntu", "C:\\Users\\Me", "/mnt/host");
    assert_eq!(
        mount.args(),
        vec!["-d", "Ubuntu", "-u", "root", "--", "sh", "-c", "mkdir -p \"$1\" && mount --bind \"$2\" \"$1\"", "--", "/mnt/host", "/mnt/c/users/me"]
    );
    assert!(WslCommand::MountDisk { device: "\\\\.\\PhysicalDrive1".into() }.needs_elevation());
    assert_eq!(attach_usb_args("1-2", Some("Ubuntu")), vec!["attach", "--wsl", "--busid", "1-2", "--distribution", "Ubuntu"]);
    assert_eq!(attach_usb_args("1-2", None), vec!["attach", "--wsl", "--busid", "1-2"]);
    assert_eq!(detach_usb_args("3-4"), vec!["detach", "--busid", "3-4"]);
}

#[test]
fn test_rate_limit_allows_after_cooldown() {
    let mut limits = RateLimiter::new();
    assert!(rate_limit(&mut limits, RateLimitKey::DistroList, 100, 150).is_ok());
}

#[test]
fn test_rate_limit_blocks_rapid_calls() {
    let mut limits = RateLimiter::new();
    assert!(rate_limit(&mut limits, RateLimitKey::SystemMetrics, 100, 150).is_ok());
    assert!(rate_limit(&mut limits, RateLimitKey::SystemMetrics, 100, 150).is_err());
}

#[test]
fn test_rate_limit_allows_after_interval() {
    let mut limits = RateLimiter::new();
    assert!(rate_limit(&mut limits, RateLimitKey::DistroMetrics, 50, 150).is_ok());
    assert!(rate_limit(&mut limits, RateLimitKey::DistroMetrics, 50, 210).is_ok());
}

#[test]
fn test_is_rate_limited_check() {
    let mut limits = RateLimiter::new();
    let key = RateLimitKey::DistroList;
    let _ = rate_limit(&mut limits, key, 100, 150);
    assert!(is_rate_limited(&limits, key, 100, 150));
    assert!(!is_rate_limited(&limits, key, 100, 260));
}

#[test]
fn cooldown_rejection_reports_wait_and_keys_are_separate() {
    let mut limits = RateLimiter::new();
    rate_limit(&mut limits, RateLimitKey::DistroList, 100, 1_000).unwrap();
    assert_eq!(rate_limit(&mut limits, RateLimitKey::DistroList, 100, 1_030).unwrap_err(), "Rate limited - wait 70ms");
    assert!(rate_limit(&mut limits, RateLimitKey::SystemMetrics, 100, 1_030).is_ok());
    assert!(rate_limit(&mut limits, RateLimitKey::DistroList, 100, 1_100).is_ok());
    assert_eq!(RateLimitKey::DistroList.as_str(), "distro_list");
}

#[test]
fn move_final_import_failure_keeps_archive() {
    let mut m = MoveDistribution::new("Ubuntu", "D:\\wsl", "A.tar", "B.tar");
    for _ in 0..6 {
        run_op(m.next(Ok(())));
    }
    // the seventh operation is the final import
    let last = run_op(m.next(Ok(())));
    assert_eq!(last, GatewayOp::Import { name: "Ubuntu".into(), location: "D:\\wsl".into(), artifact: "B.tar".into() });
    match m.next(Err("no space".into())) {
        Step::Done(Err(RelocateError::Stranded { archive, message })) => {
            assert_eq!(archive, "B.tar");
            assert_eq!(
                message,
                "Move failed after the instance was unregistered; it is kept in the archive 'B.tar': no space"
            );
        },
        other => panic!("unexpected {:?}", other),
    }
    assert!(matches!(m.next(Ok(())), Step::Done(Err(RelocateError::Stranded { .. }))));
}
