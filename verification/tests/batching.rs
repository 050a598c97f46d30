use regmail::batch::BatchConfig;
use regmail::batch::BatchRun;
use regmail::config::Settings;
use regmail::errors::ConfigError;
use regmail::errors::CycleError;

fn bv(s: &str) -> Vec<u8> {
    s.as_bytes().to_vec()
}

fn cfg(start: u32, end: u32) -> BatchConfig {
    BatchConfig {
        user: bv("alice"),
        postfix: bv("suffix"),
        password: bv("hunter2"),
        start,
        end,
    }
}

#[test]
fn batch_runs_three_cycles_in_order() {
    let mut run = BatchRun::new(cfg(5, 8));
    let mut seen: Vec<Vec<u8>> = Vec::new();
    while let Some(alias) = run.next_cycle() {
        seen.push(alias);
        run.record_outcome(Ok(()));
    }
    assert_eq!(
        seen,
        vec![
            bv("alice+suffix005@gmail.com"),
            bv("alice+suffix006@gmail.com"),
            bv("alice+suffix007@gmail.com"),
        ]
    );
    assert_eq!(run.failure, None);
}

#[test]
fn batch_empty_range_runs_no_cycle() {
    let mut run = BatchRun::new(cfg(5, 5));
    assert_eq!(run.next_cycle(), None);
    assert_eq!(run.failure, None);
}

#[test]
fn batch_stops_at_first_failure() {
    let mut run = BatchRun::new(cfg(5, 9));
    let first = run.next_cycle().unwrap();
    assert_eq!(first, bv("alice+suffix005@gmail.com"));
    run.record_outcome(Ok(()));
    let second = run.next_cycle().unwrap();
    assert_eq!(second, bv("alice+suffix006@gmail.com"));
    run.record_outcome(Err(CycleError::UiStructure));
    // Fail-fast: index 007 is never attempted, the failure is the result.
    assert_eq!(run.next_cycle(), None);
    assert_eq!(run.next_cycle(), None);
    assert_eq!(run.failure, Some(CycleError::UiStructure));
}

#[test]
fn batch_config_rejects_inverted_range() {
    assert_eq!(cfg(8, 5).validate(), Err(ConfigError::InvalidRange));
    assert_eq!(cfg(5, 5).validate(), Ok(()));
    assert_eq!(cfg(5, 8).validate(), Ok(()));
}

#[test]
fn settings_validate_and_convert() {
    let settings = Settings {
        gmail_username: bv("alice"),
        gmail_oauth2: bv("token"),
        register_password: bv("hunter2"),
        postfix: bv("suffix"),
        start_num: 5,
        end_num: 8,
    };
    assert_eq!(settings.validate(), Ok(()));
    let c = settings.batch_config();
    assert_eq!(c.user, bv("alice"));
    assert_eq!(c.postfix, bv("suffix"));
    assert_eq!(c.password, bv("hunter2"));
    assert_eq!(c.start, 5);
    assert_eq!(c.end, 8);

    let bad = Settings {
        gmail_username: bv("alice"),
        gmail_oauth2: bv("token"),
        register_password: bv("hunter2"),
        postfix: bv("suffix"),
        start_num: 9,
        end_num: 8,
    };
    assert_eq!(bad.validate(), Err(ConfigError::InvalidRange));
}
