use lal::error::CliError;
use lal::launcher::{check_ids, parse_id, docker_run, exit_outcome, mount_flag, render, shell, shell_command, Config, Launch, Mount};

fn config() -> Config {
    Config {
        container: "img:1".to_string(),
        mounts: vec![Mount { src: "/a".to_string(), dest: "/b".to_string(), readonly: true }],
    }
}

fn words(v: &[&str]) -> Vec<String> {
    v.iter().map(|s| s.to_string()).collect()
}

#[test]
fn dry_run_renders_the_invocation_in_order() {
    let r = docker_run(&config(), Some("/home/u"), "/work", words(&["echo", "hi"]), false, true);
    match r {
        Ok(Launch::Print(line)) => assert_eq!(
            line,
            "docker run --rm -v /a:/b:ro -v /home/u/.gitconfig:/home/lal/.gitconfig:ro \
             -v /work:/home/lal/volume -w /home/lal/volume --user lal -t img:1 echo hi"
        ),
        other => panic!("unexpected {:?}", other),
    }
}

#[test]
fn dry_run_is_deterministic() {
    let a = docker_run(&config(), Some("/h"), "/w", words(&["make"]), true, true);
    let b = docker_run(&config(), Some("/h"), "/w", words(&["make"]), true, true);
    match (a, b) {
        (Ok(Launch::Print(x)), Ok(Launch::Print(y))) => assert_eq!(x, y),
        other => panic!("unexpected {:?}", other),
    }
}

#[test]
fn real_run_hands_over_the_arguments() {
    let r = docker_run(&config(), Some("/h"), "/w", words(&["make"]), true, false);
    match r {
        Ok(Launch::Run(args)) => assert_eq!(
            args,
            words(&[
                "run", "--rm", "-v", "/a:/b:ro", "-v", "/h/.gitconfig:/home/lal/.gitconfig:ro", "-v",
                "/w:/home/lal/volume", "-w", "/home/lal/volume", "--user", "lal", "-it", "img:1", "make",
            ])
        ),
        other => panic!("unexpected {:?}", other),
    }
}

#[test]
fn missing_home_directory_is_fatal() {
    let r = docker_run(&config(), None, "/w", words(&["make"]), false, true);
    assert!(matches!(r, Err(CliError::EnvironmentResolution)));
}

#[test]
fn read_write_mount_has_no_suffix() {
    let m = Mount { src: "/x".to_string(), dest: "/y".to_string(), readonly: false };
    assert_eq!(mount_flag(&m), "/x:/y");
}

#[test]
fn render_prefixes_the_runtime() {
    assert_eq!(render(&words(&["ps", "-a"])), "docker ps -a");
    assert_eq!(render(&Vec::new()), "docker");
}

#[test]
fn shell_passes_the_command_to_bash() {
    assert_eq!(shell_command(None), words(&["/bin/bash"]));
    assert_eq!(shell_command(Some("ls -l")), words(&["/bin/bash", "-c", "ls -l"]));
    let r = shell(&config(), Some("/h"), "/w", true, Some("ls"));
    match r {
        Ok(Launch::Print(line)) => assert!(line.ends_with("-it img:1 /bin/bash -c ls")),
        other => panic!("unexpected {:?}", other),
    }
}

#[test]
fn exit_code_three_is_a_subprocess_failure() {
    assert_eq!(exit_outcome(Some(3)), Err(CliError::SubprocessFailure(3)));
}

#[test]
fn exit_outcomes() {
    assert_eq!(exit_outcome(Some(0)), Ok(()));
    assert_eq!(exit_outcome(None), Err(CliError::SubprocessFailure(1001)));
}

#[test]
fn permission_check_on_ids() {
    assert_eq!(check_ids(1000, 1000), Ok(()));
    assert_eq!(
        check_ids(1001, 1000),
        Err(CliError::DockerPermissionSafety("UID is 1001, not 1000".to_string()))
    );
    assert_eq!(
        check_ids(1000, 0),
        Err(CliError::DockerPermissionSafety("GID is 0, not 1000".to_string()))
    );
}

#[test]
fn identity_output_is_read_as_a_number() {
    assert_eq!(parse_id("1000\n"), Some(1000));
    assert_eq!(parse_id("  42 \r\n"), Some(42));
    assert_eq!(parse_id("4294967295"), Some(4294967295));
    assert_eq!(parse_id("4294967296"), None);
    assert_eq!(parse_id(""), None);
    assert_eq!(parse_id(" \n"), None);
    assert_eq!(parse_id("10 00"), None);
    assert_eq!(parse_id("abc"), None);
}
