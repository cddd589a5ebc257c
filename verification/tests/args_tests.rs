use sos_loadgen::args::{
    Args, CredentialsArgs, LoadTesterArgs, LoadTesterJobArgs, Mode, RegionArgs,
};
use sos_loadgen::config::{ConfigError, RunConfig};
use sos_loadgen::span::TimeSpan;

fn sample_args() -> Args {
    Args {
        bucket_name: String::from("bench"),
        bucket_create: true,
        credentials: CredentialsArgs {
            access_key: Some(String::from("AKIA-access")),
            secret_key: Some(String::from("very-secret")),
            security_token: None,
            session_token: Some(String::from("session-token")),
        },
        load_tester: LoadTesterArgs { count: Some(10), ..LoadTesterArgs::default() },
        load_tester_job: LoadTesterJobArgs {
            duration: TimeSpan::new(90, 0),
            mode: Mode::Read,
            no_progress_bar: true,
            threads_max: 3,
        },
        region: RegionArgs::default(),
    }
}

#[test]
fn mode_defaults_to_write() {
    assert_eq!(Mode::default(), Mode::Write);
    assert_eq!(Mode::Read.name(), "Read");
    assert_eq!(Mode::Write.name(), "Write");
}

#[test]
fn load_tester_defaults() {
    let args = LoadTesterArgs::default();
    assert_eq!(args.count, None);
    assert_eq!(args.multipart_threshold, 8_000_000);
    assert_eq!(args.size, 4_000_000);
    assert_eq!(args.step, 64);
    assert_eq!(LoadTesterArgs::default_multipart_threshold(), 8_000_000);
    assert_eq!(LoadTesterArgs::default_size(), 4_000_000);
    assert_eq!(LoadTesterArgs::default_step(), 64);
    assert_eq!(LoadTesterArgs::minimal_multipart_threshold(), 5_000_000);
}

#[test]
fn job_defaults() {
    let args = LoadTesterJobArgs::default();
    assert_eq!(args.duration, None);
    assert_eq!(args.mode, Mode::Write);
    assert!(!args.no_progress_bar);
    assert_eq!(args.threads_max, 8);
    assert!(!LoadTesterJobArgs::default_no_progress_bar());
    assert_eq!(LoadTesterJobArgs::default_threads_max(), 8);
    assert!(!Args::default_bucket_create());
}

#[test]
fn region_defaults() {
    assert_eq!(RegionArgs::default_endpoint(), "s3.amazonaws.com");
    assert_eq!(RegionArgs::default_region(), "us-east-1");
    let region = RegionArgs::default();
    assert_eq!(region.endpoint, "s3.amazonaws.com");
    assert_eq!(region.region, "us-east-1");
}

#[test]
fn credentials_default_to_none() {
    let credentials = CredentialsArgs::default();
    assert!(credentials.access_key.is_none());
    assert!(credentials.secret_key.is_none());
    assert!(credentials.security_token.is_none());
    assert!(credentials.session_token.is_none());
}

#[test]
fn credentials_are_never_printed() {
    let args = sample_args();
    assert!(args.credentials.print().is_empty());
    let text = args.credentials.redacted();
    assert_eq!(
        text,
        "CredentialsArgs { access_key: \"(hidden)\", secret_key: \"(hidden)\", security_token: \"(hidden)\", session_token: \"(hidden)\" }"
    );
    assert_eq!(text, CredentialsArgs::default().redacted());
    for line in args.print() {
        assert!(!line.contains("very-secret"));
        assert!(!line.contains("AKIA-access"));
        assert!(!line.contains("session-token"));
    }
}

#[test]
fn region_prints_endpoint_and_region() {
    let region = RegionArgs { endpoint: String::from("minio:9000"), region: String::from("lab") };
    assert_eq!(region.print(), vec!["endpoint: minio:9000", "region: lab"]);
}

#[test]
fn load_tester_prints_its_fields() {
    assert_eq!(
        LoadTesterArgs::default().print(),
        vec!["count: None", "multipart_threshold: 8000000", "size: 4000000", "step: 64"]
    );
    let capped = LoadTesterArgs { count: Some(1500), ..LoadTesterArgs::default() };
    assert_eq!(capped.print()[0], "count: 1500");
}

#[test]
fn job_prints_its_fields() {
    assert_eq!(
        LoadTesterJobArgs::default().print(),
        vec!["duration: None", "mode: Write", "no_progress_bar: false", "threads_max: 8"]
    );
    let job = sample_args().load_tester_job;
    assert_eq!(
        job.print(),
        vec!["duration: 90s", "mode: Read", "no_progress_bar: true", "threads_max: 3"]
    );
}

#[test]
fn args_print_everything_in_order() {
    assert_eq!(
        sample_args().print(),
        vec![
            "bucket_name: bench",
            "bucket_create: true",
            "count: 10",
            "multipart_threshold: 8000000",
            "size: 4000000",
            "step: 64",
            "duration: 90s",
            "mode: Read",
            "no_progress_bar: true",
            "threads_max: 3",
            "endpoint: s3.amazonaws.com",
            "region: us-east-1",
        ]
    );
}

#[test]
fn time_span_holds_seconds_and_fraction() {
    let span = TimeSpan::new(2, 500_000_000).unwrap();
    assert_eq!(span.secs(), 2);
    assert_eq!(span.subsec_nanos(), 500_000_000);
    assert_eq!(span.as_nanos(), 2_500_000_000);
    assert_eq!(TimeSpan::from_secs(3).as_nanos(), 3_000_000_000);
    assert!(TimeSpan::new(0, 1_000_000_000).is_none());
    assert!(TimeSpan::new(0, 999_999_999).is_some());
    assert_eq!(
        TimeSpan::new(u64::MAX, 999_999_999).unwrap().as_nanos(),
        u64::MAX as u128 * 1_000_000_000 + 999_999_999
    );
}

#[test]
fn time_span_is_over_when_elapsed_reaches_it() {
    let span = TimeSpan::new(1, 5).unwrap();
    assert!(!span.is_over(0));
    assert!(!span.is_over(1_000_000_004));
    assert!(span.is_over(1_000_000_005));
    assert!(span.is_over(u128::MAX));
    assert!(TimeSpan::from_secs(0).is_over(0));
}

#[test]
fn time_span_text_names_the_largest_unit() {
    assert_eq!(TimeSpan::from_secs(90).text(), "90s");
    assert_eq!(TimeSpan::from_secs(60).text(), "1m");
    assert_eq!(TimeSpan::from_secs(7200).text(), "2h");
    assert_eq!(TimeSpan::new(1, 500_000_000).unwrap().text(), "1500ms");
    assert_eq!(TimeSpan::new(0, 1).unwrap().text(), "1ns");
    assert_eq!(TimeSpan::new(0, 1_000).unwrap().text(), "1us");
    assert_eq!(TimeSpan::new(0, 2_000_000).unwrap().text(), "2ms");
    assert_eq!(TimeSpan::from_secs(86_400).text(), "1d");
    assert_eq!(TimeSpan::from_secs(1_209_600).text(), "2w");
    assert_eq!(TimeSpan::from_secs(31_556_926).text(), "1y");
    assert_eq!(TimeSpan::from_secs(0).text(), "0y");
    assert_eq!(TimeSpan::new(61, 0).unwrap().text(), "61s");
    assert_ne!(TimeSpan::from_secs(1).text(), TimeSpan::from_secs(2).text());
}

#[test]
fn config_of_default_arguments() {
    let config =
        RunConfig::from_args(&LoadTesterArgs::default(), &LoadTesterJobArgs::default()).unwrap();
    assert_eq!(config.object_size, 4_000_000);
    assert_eq!(config.step, 64);
    assert_eq!(config.count, None);
    assert_eq!(config.multipart_threshold, 8_000_000);
    assert_eq!(config.minimum_part_size, 5_000_000);
    assert_eq!(config.mode, Mode::Write);
    assert_eq!(config.thread_count, 8);
    assert_eq!(config.duration, None);
    assert!(config.progress_enabled);
    assert!(config.is_valid());
    assert_eq!(config.progress_total(), None);
}

#[test]
fn config_takes_cap_and_job() {
    let args = sample_args();
    let config = RunConfig::from_args(&args.load_tester, &args.load_tester_job).unwrap();
    assert_eq!(config.count, Some(10));
    assert_eq!(config.mode, Mode::Read);
    assert_eq!(config.thread_count, 3);
    assert_eq!(config.duration, TimeSpan::new(90, 0));
    assert!(!config.progress_enabled);
    assert_eq!(config.progress_total(), Some(40_000_000));
}

#[test]
fn config_rejects_zero_step() {
    let load = LoadTesterArgs { step: 0, ..LoadTesterArgs::default() };
    assert_eq!(
        RunConfig::from_args(&load, &LoadTesterJobArgs::default()),
        Err(ConfigError::ZeroStep)
    );
}

#[test]
fn config_rejects_a_threshold_that_never_advances() {
    let load = LoadTesterArgs { multipart_threshold: 0, size: 5_000_000, ..LoadTesterArgs::default() };
    assert_eq!(
        RunConfig::from_args(&load, &LoadTesterJobArgs::default()),
        Err(ConfigError::ZeroThreshold)
    );
    let small = LoadTesterArgs { multipart_threshold: 0, size: 4_999_999, ..LoadTesterArgs::default() };
    assert!(RunConfig::from_args(&small, &LoadTesterJobArgs::default()).is_ok());
}

#[test]
fn config_rejects_what_does_not_fit() {
    let load = LoadTesterArgs { size: u64::MAX, step: 1, ..LoadTesterArgs::default() };
    assert_eq!(
        RunConfig::from_args(&load, &LoadTesterJobArgs::default()),
        Err(ConfigError::TooLarge)
    );
    let capped = LoadTesterArgs { count: Some(u64::MAX / 2), size: 4, ..LoadTesterArgs::default() };
    assert_eq!(
        RunConfig::from_args(&capped, &LoadTesterJobArgs::default()),
        Err(ConfigError::TooLarge)
    );
    let hidden = LoadTesterJobArgs { no_progress_bar: true, ..LoadTesterJobArgs::default() };
    assert!(RunConfig::from_args(&capped, &hidden).is_ok());
}

#[test]
fn config_validity_is_checked() {
    let mut config =
        RunConfig::from_args(&LoadTesterArgs::default(), &LoadTesterJobArgs::default()).unwrap();
    assert!(config.is_valid());
    config.step = 0;
    assert!(!config.is_valid());
    config.step = 64;
    config.object_size = usize::MAX;
    assert!(!config.is_valid());
    config.object_size = 6_000_000;
    config.multipart_threshold = 0;
    assert!(!config.is_valid());
    config.minimum_part_size = 7_000_000;
    assert!(config.is_valid());
}
