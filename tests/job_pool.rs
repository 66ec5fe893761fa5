use lazyreader::job::{allows_move, JobPool, JobStatus};

fn completed(s: &str) -> JobStatus {
    JobStatus::Completed(s.to_string())
}

#[test]
fn test_job_pool() {
    let mut job_pool = JobPool::new();
    let handle_1 = job_pool.submit_job();
    let handle_2 = job_pool.submit_job();
    let job_1 = handle_1.get_id().to_string();
    let job_2 = handle_2.get_id().to_string();

    let status_1 = job_pool.get_job_status(&job_1);
    let status_2 = job_pool.get_job_status(&job_2);
    assert!(matches!(status_1, Some(JobStatus::Pending)));
    assert!(matches!(status_2, Some(JobStatus::Pending)));

    // the first task reports progress, the second one finishes first
    assert!(handle_1.set_status(&mut job_pool, JobStatus::InProgress));
    assert!(handle_2.set_status(&mut job_pool, completed("Job 2 completed")));
    let status_1 = job_pool.get_job_status(&job_1).unwrap();
    let status_2 = job_pool.get_job_status(&job_2).unwrap();
    assert!(matches!(status_1, JobStatus::InProgress));
    assert!(matches!(status_2, JobStatus::Completed(_)));

    assert!(handle_1.set_status(&mut job_pool, completed("Job 1 completed")));
    let status_1 = job_pool.get_job_status(&job_1).unwrap();
    let status_2 = job_pool.get_job_status(&job_2).unwrap();
    assert!(matches!(status_1, JobStatus::Completed(s) if s == "Job 1 completed"));
    assert!(matches!(status_2, JobStatus::Completed(s) if s == "Job 2 completed"));
}

#[test]
fn status_is_pending_right_after_submission() {
    let mut pool = JobPool::new();
    let h = pool.submit_job();
    assert!(matches!(pool.get_job_status(h.get_id()), Some(JobStatus::Pending)));
}

#[test]
fn unknown_id_is_not_found() {
    let mut pool = JobPool::new();
    assert!(pool.get_job_status("nothing").is_none());
    let h = pool.register_job("job-a".to_string());
    assert_eq!(h.get_id(), "job-a");
    assert!(pool.get_job_status("job-b").is_none());
    assert!(pool.get_job_status("").is_none());
}

#[test]
fn terminal_status_is_kept() {
    let mut pool = JobPool::new();
    let h = pool.register_job("a".to_string());
    assert!(h.set_status(&mut pool, JobStatus::Failed("boom".to_string())));
    assert!(!h.set_status(&mut pool, completed("late")));
    assert!(!h.set_status(&mut pool, JobStatus::InProgress));
    assert!(!h.set_status(&mut pool, JobStatus::Pending));
    for _ in 0..3 {
        assert!(matches!(pool.get_job_status("a"), Some(JobStatus::Failed(s)) if s == "boom"));
    }
}

#[test]
fn in_progress_cannot_go_back_to_pending() {
    let mut pool = JobPool::new();
    let h = pool.register_job("a".to_string());
    assert!(!h.set_status(&mut pool, JobStatus::Pending));
    assert!(h.set_status(&mut pool, JobStatus::InProgress));
    assert!(!h.set_status(&mut pool, JobStatus::Pending));
    assert!(!h.set_status(&mut pool, JobStatus::InProgress));
    assert!(matches!(pool.get_job_status("a"), Some(JobStatus::InProgress)));
}

#[test]
fn many_submissions_get_distinct_ids_and_own_results() {
    let mut pool = JobPool::new();
    let mut handles = Vec::new();
    for _ in 0..50 {
        handles.push(pool.submit_job());
    }
    let ids: Vec<String> = handles.iter().map(|h| h.get_id().to_string()).collect();
    for i in 0..ids.len() {
        assert_eq!(ids[i].len(), 36);
        for j in 0..i {
            assert_ne!(ids[i], ids[j]);
        }
    }
    for (i, h) in handles.iter().enumerate() {
        assert!(h.set_status(&mut pool, completed(&format!("result {i}"))));
    }
    for (i, id) in ids.iter().enumerate() {
        let expected = format!("result {i}");
        assert!(matches!(pool.get_job_status(id), Some(JobStatus::Completed(s)) if s == expected));
    }
}

#[test]
fn taken_candidate_is_extended() {
    let mut pool = JobPool::new();
    let a = pool.register_job("x".to_string());
    let b = pool.register_job("x".to_string());
    let c = pool.register_job("x".to_string());
    assert_eq!(a.get_id(), "x");
    assert_eq!(b.get_id(), "x-");
    assert_eq!(c.get_id(), "x--");
    assert!(b.set_status(&mut pool, completed("b")));
    assert!(matches!(pool.get_job_status("x"), Some(JobStatus::Pending)));
    assert!(matches!(pool.get_job_status("x-"), Some(JobStatus::Completed(s)) if s == "b"));
    assert!(matches!(pool.get_job_status("x--"), Some(JobStatus::Pending)));
}

#[test]
fn repeated_reads_agree() {
    let mut pool = JobPool::new();
    let h = pool.register_job("r".to_string());
    assert!(h.set_status(&mut pool, completed("same")));
    let first = pool.get_job_status("r");
    let second = pool.get_job_status("r");
    assert!(matches!((first, second), (Some(JobStatus::Completed(a)), Some(JobStatus::Completed(b))) if a == b && a == "same"));
}

#[test]
fn lifecycle_edges() {
    let done = completed("d");
    let failed = JobStatus::Failed("f".to_string());
    assert!(allows_move(&JobStatus::Pending, &JobStatus::InProgress));
    assert!(allows_move(&JobStatus::Pending, &done));
    assert!(allows_move(&JobStatus::Pending, &failed));
    assert!(!allows_move(&JobStatus::Pending, &JobStatus::Pending));
    assert!(allows_move(&JobStatus::InProgress, &done));
    assert!(!allows_move(&JobStatus::InProgress, &JobStatus::InProgress));
    assert!(!allows_move(&done, &failed));
    assert!(!allows_move(&failed, &done));
    assert!(done.is_finished() && failed.is_finished());
    assert!(!JobStatus::Pending.is_finished());
    assert!(matches!(failed.duplicate(), JobStatus::Failed(s) if s == "f"));
}
