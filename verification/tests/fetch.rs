use proxmox_auto_installer::fetch::{
    settings_from_cli_args, settings_from_keyword, AutoInstSettings, CliError, FetchAnswerFrom,
    FetchError, FetchEvent, FetchStep, HttpOptions, ERR_NO_ANSWER,
};

fn args(words: &[&str]) -> Vec<String> {
    words.iter().map(|word| word.to_string()).collect()
}

fn settings(mode: FetchAnswerFrom, url: Option<&str>, fingerprint: Option<&str>) -> AutoInstSettings {
    AutoInstSettings {
        mode,
        http: HttpOptions {
            url: url.map(|url| url.to_string()),
            cert_fingerprint: fingerprint.map(|fingerprint| fingerprint.to_string()),
        },
    }
}

#[test]
fn cli_configures_http_with_url_and_fingerprint() {
    let fingerprint = "aa:bb:cc:dd:ee:ff";
    let given = args(&["prog", "http", "https://example/a.toml", fingerprint]);
    assert_eq!(
        settings_from_cli_args(&given),
        Ok(settings(FetchAnswerFrom::Http, Some("https://example/a.toml"), Some(fingerprint)))
    );
}

#[test]
fn cli_refuses_arguments_for_other_modes() {
    assert_eq!(
        settings_from_cli_args(&args(&["prog", "iso", "x"])),
        Err(CliError::UnexpectedArguments)
    );
    assert_eq!(
        settings_from_cli_args(&args(&["prog", "partition", "https://example/a.toml", "aa"])),
        Err(CliError::UnexpectedArguments)
    );
    assert_eq!(
        settings_from_cli_args(&args(&["prog", "iso", "a", "b", "c"])),
        Err(CliError::UnexpectedArguments)
    );
}

#[test]
fn cli_takes_each_mode_alone() {
    assert_eq!(
        settings_from_cli_args(&args(&["prog", "iso"])),
        Ok(settings(FetchAnswerFrom::Iso, None, None))
    );
    assert_eq!(
        settings_from_cli_args(&args(&["prog", "partition"])),
        Ok(settings(FetchAnswerFrom::Partition, None, None))
    );
    assert_eq!(
        settings_from_cli_args(&args(&["prog", "http"])),
        Ok(settings(FetchAnswerFrom::Http, None, None))
    );
    assert_eq!(
        settings_from_cli_args(&args(&["prog", "http", "https://example/a.toml"])),
        Ok(settings(FetchAnswerFrom::Http, Some("https://example/a.toml"), None))
    );
}

#[test]
fn cli_reads_the_mode_in_any_case() {
    assert_eq!(
        settings_from_cli_args(&args(&["prog", "ISO"])),
        Ok(settings(FetchAnswerFrom::Iso, None, None))
    );
    assert_eq!(
        settings_from_cli_args(&args(&["prog", "Partition"])),
        Ok(settings(FetchAnswerFrom::Partition, None, None))
    );
    assert_eq!(
        settings_from_cli_args(&args(&["prog", "hTTp", "u"])),
        Ok(settings(FetchAnswerFrom::Http, Some("u"), None))
    );
}

#[test]
fn cli_ignores_what_follows_the_fingerprint() {
    assert_eq!(
        settings_from_cli_args(&args(&["prog", "http", "u", "f", "more"])),
        Ok(settings(FetchAnswerFrom::Http, Some("u"), Some("f")))
    );
}

#[test]
fn cli_tells_help_from_an_unknown_mode() {
    assert_eq!(settings_from_cli_args(&args(&["prog", "-h"])), Err(CliError::Usage));
    assert_eq!(settings_from_cli_args(&args(&["prog", "--help"])), Err(CliError::Usage));
    assert_eq!(settings_from_cli_args(&args(&["prog", "--HELP", "x"])), Err(CliError::Usage));
    assert_eq!(settings_from_cli_args(&args(&["prog", "ftp"])), Err(CliError::UnknownMode));
    assert_eq!(settings_from_cli_args(&args(&["prog", ""])), Err(CliError::UnknownMode));
    assert_eq!(settings_from_cli_args(&args(&["prog", "iso "])), Err(CliError::UnknownMode));
}

#[test]
fn http_options_go_with_the_http_source() {
    assert!(settings(FetchAnswerFrom::Http, Some("u"), Some("f")).is_consistent());
    assert!(settings(FetchAnswerFrom::Http, None, None).is_consistent());
    assert!(settings(FetchAnswerFrom::Iso, None, None).is_consistent());
    assert!(!settings(FetchAnswerFrom::Iso, Some("u"), None).is_consistent());
    assert!(!settings(FetchAnswerFrom::Partition, None, Some("f")).is_consistent());
    let configured = settings_from_cli_args(&args(&["prog", "http", "u", "f"])).unwrap();
    assert!(configured.is_consistent());
    let configured = settings_from_cli_args(&args(&["prog", "partition"])).unwrap();
    assert!(configured.is_consistent());
}

#[test]
fn keyword_has_to_be_in_lower_case() {
    let given = args(&["prog", "ISO"]);
    assert_eq!(settings_from_keyword("ISO", &given), Err(CliError::UnknownMode));
    assert_eq!(
        settings_from_keyword("iso", &given),
        Ok(settings(FetchAnswerFrom::Iso, None, None))
    );
    assert_eq!(FetchAnswerFrom::from_keyword("http"), Some(FetchAnswerFrom::Http));
    assert_eq!(FetchAnswerFrom::from_keyword("Http"), None);
}

#[test]
fn cli_errors_read_as_sentences() {
    assert_eq!(
        CliError::Usage.message("proxmox-fetch-answer"),
        "usage: proxmox-fetch-answer <http|iso|partition> [<http-url>] [<tls-cert-fingerprint>]"
    );
    assert_eq!(
        CliError::UnknownMode.message("prog"),
        "failed to parse fetch-from argument, not one of 'http', 'iso', or 'partition'"
    );
    assert_eq!(
        CliError::UnexpectedArguments.message("prog"),
        "only 'http' fetch-from mode supports additional url and cert-fingerprint mode"
    );
}

#[test]
fn http_without_url_ends_before_any_request() {
    let first = FetchStep::first(&settings(FetchAnswerFrom::Http, None, Some("aa:bb")));
    assert_eq!(first, FetchStep::Done(Err(FetchError::MissingUrl)));
    assert!(first.is_done());
    let still = first.after(FetchEvent::Response(Ok("answer".to_string())));
    assert_eq!(still, FetchStep::Done(Err(FetchError::MissingUrl)));
}

#[test]
fn http_attempt_sends_one_request() {
    let first = FetchStep::first(&settings(FetchAnswerFrom::Http, Some("https://e/a"), Some("aa")));
    assert_eq!(
        first,
        FetchStep::Request {
            url: "https://e/a".to_string(),
            cert_fingerprint: Some("aa".to_string())
        }
    );
    assert!(!first.is_done());
    let done = first.after(FetchEvent::Response(Ok("answer".to_string())));
    assert_eq!(done, FetchStep::Done(Ok("answer".to_string())));
    let first = FetchStep::first(&settings(FetchAnswerFrom::Http, Some("https://e/a"), None));
    let done = first.after(FetchEvent::Response(Err("status code 404".to_string())));
    assert_eq!(done, FetchStep::Done(Err(FetchError::Http("status code 404".to_string()))));
}

#[test]
fn iso_attempt_reads_one_file() {
    let first = FetchStep::first(&settings(FetchAnswerFrom::Iso, None, None));
    assert_eq!(first, FetchStep::ReadIso);
    let done = first.after(FetchEvent::Read(Ok("[global]".to_string())));
    assert_eq!(done, FetchStep::Done(Ok("[global]".to_string())));
    let done = FetchStep::ReadIso.after(FetchEvent::Read(Err("No such file".to_string())));
    assert_eq!(done, FetchStep::Done(Err(FetchError::Iso("No such file".to_string()))));
}

#[test]
fn partition_without_label_ends_without_a_mount() {
    let first = FetchStep::first(&settings(FetchAnswerFrom::Partition, None, None));
    assert_eq!(first, FetchStep::FindPartition);
    let done = first.after(FetchEvent::Found(None));
    assert_eq!(done, FetchStep::Done(Err(FetchError::LabelNotFound)));
}

#[test]
fn partition_is_unmounted_after_reading() {
    let step = FetchStep::FindPartition.after(FetchEvent::Found(Some("/dev/sdb1".to_string())));
    assert_eq!(step, FetchStep::Mount { device: "/dev/sdb1".to_string() });
    let step = step.after(FetchEvent::Mounted(Ok(())));
    assert_eq!(step, FetchStep::ReadPartition);
    let step = step.after(FetchEvent::Read(Ok("answer".to_string())));
    assert_eq!(step, FetchStep::Unmount { answer: Ok("answer".to_string()) });
    assert!(!step.is_done());
    let step = step.after(FetchEvent::Unmounted);
    assert_eq!(step, FetchStep::Done(Ok("answer".to_string())));
}

#[test]
fn partition_is_unmounted_after_a_failed_read() {
    let step = FetchStep::ReadPartition.after(FetchEvent::Read(Err("No such file".to_string())));
    assert_eq!(
        step,
        FetchStep::Unmount { answer: Err(FetchError::PartitionFile("No such file".to_string())) }
    );
    let step = step.after(FetchEvent::Unmounted);
    assert_eq!(
        step,
        FetchStep::Done(Err(FetchError::PartitionFile("No such file".to_string())))
    );
}

#[test]
fn failed_mount_ends_the_attempt() {
    let step = FetchStep::Mount { device: "/dev/sdb1".to_string() };
    let step = step.after(FetchEvent::Mounted(Err("wrong fs type".to_string())));
    assert_eq!(step, FetchStep::Done(Err(FetchError::Mount("wrong fs type".to_string()))));
}

#[test]
fn step_waits_for_its_own_event() {
    let step = FetchStep::ReadIso.after(FetchEvent::Response(Ok("answer".to_string())));
    assert_eq!(step, FetchStep::ReadIso);
    let step = FetchStep::FindPartition.after(FetchEvent::Unmounted);
    assert_eq!(step, FetchStep::FindPartition);
    let step = FetchStep::ReadPartition.after(FetchEvent::Unmounted);
    assert_eq!(step, FetchStep::ReadPartition);
    let waiting = FetchStep::Unmount { answer: Ok("answer".to_string()) };
    let step = waiting.after(FetchEvent::Read(Ok("other".to_string())));
    assert_eq!(step, FetchStep::Unmount { answer: Ok("answer".to_string()) });
    let request = FetchStep::Request { url: "u".to_string(), cert_fingerprint: None };
    let step = request.after(FetchEvent::Read(Ok("answer".to_string())));
    assert_eq!(step, FetchStep::Request { url: "u".to_string(), cert_fingerprint: None });
    let mount = FetchStep::Mount { device: "d".to_string() };
    let step = mount.after(FetchEvent::Found(None));
    assert_eq!(step, FetchStep::Mount { device: "d".to_string() });
}

#[test]
fn fetch_errors_name_source_and_cause() {
    assert_eq!(
        FetchError::Iso("No such file".to_string()).log_line(),
        "Fetching answer file from ISO failed: No such file"
    );
    assert_eq!(
        FetchError::Mount("wrong fs type".to_string()).log_line(),
        "Fetching answer file from partition failed: wrong fs type"
    );
    assert_eq!(
        FetchError::PartitionFile("No such file".to_string()).log_line(),
        "Fetching answer file from partition failed: No such file"
    );
    assert_eq!(
        FetchError::LabelNotFound.log_line(),
        "Fetching answer file from partition failed: no partition carries the label of the answer medium"
    );
    assert_eq!(
        FetchError::Http("timed out".to_string()).log_line(),
        "Fetching answer file via HTTP failed: timed out"
    );
    assert_eq!(
        FetchError::MissingUrl.log_line(),
        "Fetching answer file via HTTP failed: no URL is configured for the HTTP source"
    );
    assert_eq!(ERR_NO_ANSWER, "Could not find any answer file!");
}
