use update_hook::command::split_command;
use update_hook::config::{config_file_path, listen_port, HookContext, Project, UpdateHookConfig};
use update_hook::dispatch::{dispatch_jobs, handle_payload, plan_jobs, repo_matches, Job};
use update_hook::logs::{log_file_name, log_paths, log_paths_now, replace_slashes};
use update_hook::payload::{extract_repo_name, form_field, repo_name_in};
use update_hook::router::{route, Route, NOT_FOUND_BODY};
use update_hook::text::same_text;

fn project(repo: &str, command: &str) -> Project {
    Project { repo: repo.to_string(), command: command.to_string() }
}

fn config(path: Option<&str>, projects: Vec<Project>) -> UpdateHookConfig {
    UpdateHookConfig { port: 3000, path: path.map(|p| p.to_string()), project: projects }
}

fn form_body(json: &str) -> Vec<u8> {
    let mut body = String::from("payload=");
    for b in json.bytes() {
        if b.is_ascii_alphanumeric() {
            body.push(b as char);
        } else {
            body.push_str(&format!("%{:02X}", b));
        }
    }
    body.into_bytes()
}

fn job_parts(job: &Job) -> (String, String, Vec<String>) {
    (job.repo.clone(), job.program.clone(), job.args.clone())
}

#[test]
fn post_on_default_path_is_dispatched() {
    let c = config(None, vec![]);
    assert_eq!(route(&c, "POST", "/"), Route::Dispatch);
}

#[test]
fn other_requests_get_not_found() {
    let c = config(None, vec![]);
    assert_eq!(route(&c, "GET", "/"), Route::NotFound);
    assert_eq!(route(&c, "POST", "/hook"), Route::NotFound);
    assert_eq!(route(&c, "post", "/"), Route::NotFound);
    assert_eq!(NOT_FOUND_BODY, "Not Found");
}

#[test]
fn configured_trigger_path_is_the_only_one() {
    let c = config(Some("/hook"), vec![]);
    assert_eq!(c.trigger_path(), "/hook");
    assert_eq!(route(&c, "POST", "/hook"), Route::Dispatch);
    assert_eq!(route(&c, "POST", "/"), Route::NotFound);
    assert_eq!(route(&c, "PUT", "/hook"), Route::NotFound);
}

#[test]
fn payload_field_gives_the_repository_name() {
    let body = form_body(r#"{"repository":{"full_name":"Org/Repo"}}"#);
    let name = extract_repo_name(&body);
    assert_eq!(name, Some("Org/Repo".to_string()));
    assert!(repo_matches("org/repo", "Org/Repo"));
    assert!(!repo_matches("org/other", "Org/Repo"));
}

#[test]
fn raw_json_body_is_read_when_no_payload_field() {
    let body = br#"{"repository":{"full_name":"a/b"}}"#;
    assert_eq!(extract_repo_name(body), Some("a/b".to_string()));
}

#[test]
fn plus_in_form_is_a_space() {
    let body = b"payload={\"repository\":{\"full_name\":\"a+b\"}}";
    assert_eq!(extract_repo_name(body), Some("a b".to_string()));
}

#[test]
fn malformed_bodies_plan_nothing() {
    let c = config(None, vec![project("a/b", "echo hello")]);
    assert!(handle_payload(&c, b"payload=notjson").is_empty());
    assert!(handle_payload(&c, b"\xff\xfe{{{").is_empty());
    assert!(handle_payload(&c, b"").is_empty());
    assert!(handle_payload(&c, br#"{"repository":{"full_name":7}}"#).is_empty());
    assert!(handle_payload(&c, br#"{"repository":{}}"#).is_empty());
}

#[test]
fn matching_delivery_plans_the_command() {
    let c = config(None, vec![project("a/b", "echo hello")]);
    let body = form_body(r#"{"repository":{"full_name":"a/b"}}"#);
    let jobs = handle_payload(&c, &body);
    assert_eq!(jobs.len(), 1);
    assert_eq!(
        job_parts(&jobs[0]),
        ("a/b".to_string(), "echo".to_string(), vec!["hello".to_string()])
    );
    let paths = log_paths("/home/u/.hook", &jobs[0].repo, "2021-11-22T16:58:39+00:00");
    let out_name = paths.stdout.rsplit('/').next().unwrap().to_string();
    let err_name = paths.stderr.rsplit('/').next().unwrap().to_string();
    assert!(out_name.starts_with("a_b-") && out_name.ends_with("-stdout"));
    assert!(err_name.starts_with("a_b-") && err_name.ends_with("-stderr"));
    assert_ne!(paths.stdout, paths.stderr);
}

#[test]
fn every_matching_project_fires() {
    let c = config(None, vec![project("Org/Repo", "make all"), project("org/repo", "echo done")]);
    let jobs = plan_jobs(&c, "ORG/REPO");
    assert_eq!(jobs.len(), 2);
    assert_eq!(jobs[0].program, "make");
    assert_eq!(jobs[0].args, vec!["all".to_string()]);
    assert_eq!(jobs[1].program, "echo");
    assert_eq!(jobs[1].args, vec!["done".to_string()]);
}

#[test]
fn unmatched_delivery_plans_nothing() {
    let c = config(None, vec![project("a/b", "echo hello"), project("c/d", "true")]);
    let body = form_body(r#"{"repository":{"full_name":"x/y"}}"#);
    assert!(handle_payload(&c, &body).is_empty());
    assert!(plan_jobs(&c, "a/bc").is_empty());
}

#[test]
fn repeated_delivery_plans_the_same_and_logs_apart() {
    let c = config(None, vec![project("a/b", "echo hello")]);
    let body = form_body(r#"{"repository":{"full_name":"a/b"}}"#);
    let first = handle_payload(&c, &body);
    let second = handle_payload(&c, &body);
    assert_eq!(first.len(), 1);
    assert_eq!(job_parts(&first[0]), job_parts(&second[0]));
    let p1 = log_paths("/d", "a/b", "2021-11-22T16:58:39.090926+00:00");
    let p2 = log_paths("/d", "a/b", "2021-11-22T16:58:40.000001+00:00");
    assert_ne!(p1.stdout, p2.stdout);
    assert_ne!(p1.stderr, p2.stderr);
}

#[test]
fn dispatch_from_decoded_pairs() {
    let c = config(None, vec![project("a/b", "run x y")]);
    let pairs = vec![
        ("payload".to_string(), r#"{"repository":{"full_name":"c/d"}}"#.to_string()),
        ("payload".to_string(), r#"{"repository":{"full_name":"A/B"}}"#.to_string()),
    ];
    assert_eq!(repo_name_in(&pairs, b"ignored"), Some("A/B".to_string()));
    let jobs = dispatch_jobs(&c, &pairs, b"ignored");
    assert_eq!(jobs.len(), 1);
    assert_eq!(jobs[0].args, vec!["x".to_string(), "y".to_string()]);
    let no_pairs: Vec<(String, String)> = vec![];
    assert_eq!(dispatch_jobs(&c, &no_pairs, br#"{"repository":{"full_name":"a/b"}}"#).len(), 1);
}

#[test]
fn last_form_field_wins() {
    let pairs = vec![
        ("a".to_string(), "1".to_string()),
        ("b".to_string(), "2".to_string()),
        ("a".to_string(), "3".to_string()),
    ];
    assert_eq!(form_field(&pairs, "a"), Some(&"3".to_string()));
    assert_eq!(form_field(&pairs, "b"), Some(&"2".to_string()));
    assert_eq!(form_field(&pairs, "c"), None);
}

#[test]
fn command_splits_on_single_spaces() {
    assert_eq!(split_command("echo hello"), ("echo".to_string(), vec!["hello".to_string()]));
    assert_eq!(
        split_command("a  b"),
        ("a".to_string(), vec!["".to_string(), "b".to_string()])
    );
    assert_eq!(split_command(""), ("".to_string(), vec![]));
    assert_eq!(split_command("ls"), ("ls".to_string(), vec![]));
    assert_eq!(split_command("x "), ("x".to_string(), vec!["".to_string()]));
}

#[test]
fn case_is_ignored_when_matching() {
    assert!(repo_matches("ABC/Def", "abc/dEF"));
    assert!(repo_matches("", ""));
    assert!(!repo_matches("abc", "abd"));
}

#[test]
fn log_names_replace_slashes() {
    assert_eq!(replace_slashes("a/b/c"), "a_b_c");
    assert_eq!(replace_slashes(""), "");
    assert_eq!(log_file_name("o/r", "T1", "stdout"), "o_r-T1-stdout");
    let p = log_paths("/h/.hook", "o/r", "T1");
    assert_eq!(p.stderr, "/h/.hook/logs/o_r-T1-stderr");
    assert_eq!(p.stdout, "/h/.hook/logs/o_r-T1-stdout");
    assert_eq!(p.stamp, "T1");
}

#[test]
fn log_paths_now_carries_its_stamp() {
    let p = log_paths_now("/h/.hook", "a/b");
    assert!(!p.stamp.is_empty());
    assert!(!p.stamp.contains('/'));
    assert_eq!(p.stdout, format!("/h/.hook/logs/a_b-{}-stdout", p.stamp));
    assert_eq!(p.stderr, format!("/h/.hook/logs/a_b-{}-stderr", p.stamp));
}

#[test]
fn config_locations() {
    assert_eq!(config_file_path("/home/u", None), "/home/u/.hook/config.toml");
    assert_eq!(config_file_path("/home/u", Some("other.toml")), "/home/u/.hook/other.toml");
    let ctx = HookContext::new(config(None, vec![project("a/b", "true")]), "/home/u");
    assert_eq!(ctx.get_config_dir(), "/home/u/.hook");
    assert_eq!(ctx.logs_dir(), "/home/u/.hook/logs");
    assert_eq!(ctx.get_config().port, 3000);
    assert_eq!(ctx.get_config().project.len(), 1);
}

#[test]
fn ports_outside_the_tcp_range_are_refused() {
    let mut c = config(None, vec![]);
    assert_eq!(listen_port(&c), Some(3000));
    c.port = 65535;
    assert_eq!(listen_port(&c), Some(65535));
    c.port = 65536;
    assert_eq!(listen_port(&c), None);
    c.port = -1;
    assert_eq!(listen_port(&c), None);
}

#[test]
fn text_equality() {
    assert!(same_text("héllo", "héllo"));
    assert!(!same_text("hello", "hell"));
    assert!(!same_text("a", "b"));
}
