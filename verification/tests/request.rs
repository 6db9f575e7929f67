use solana_verify::build_plan::{plan_build, resolve_image, BuildError, BuildPlan};
use solana_verify::reporter::{reporter_step, ReporterAction, TICK_MILLIS};
use solana_verify::request::{normalize_mount_path, VerificationRequest, SUBMIT_TIMEOUT_SECS};

fn text(s: &str) -> Option<String> {
    Some(s.to_string())
}

#[test]
fn empty_mount_path_is_the_same_as_none() {
    assert_eq!(normalize_mount_path(String::new()), None);
    assert_eq!(normalize_mount_path("programs/vault".to_string()), text("programs/vault"));
    assert_eq!(normalize_mount_path(" ".to_string()), text(" "));
}

#[test]
fn request_keeps_its_fields() {
    let request = VerificationRequest::new(
        "https://example.org/repo".to_string(),
        text("0a1b2c"),
        "Prog1111111111111111111111111111111111111111".to_string(),
        text("vault"),
        true,
        "programs/vault".to_string(),
        text("image:1"),
        vec!["--features".to_string(), "mainnet".to_string()],
    );
    assert_eq!(
        request,
        VerificationRequest {
            repository: "https://example.org/repo".to_string(),
            commit_hash: text("0a1b2c"),
            program_id: "Prog1111111111111111111111111111111111111111".to_string(),
            lib_name: text("vault"),
            bpf_flag: true,
            mount_path: text("programs/vault"),
            base_image: text("image:1"),
            cargo_args: vec!["--features".to_string(), "mainnet".to_string()],
        }
    );
}

#[test]
fn request_with_empty_mount_path_has_none() {
    let request = VerificationRequest::new(
        "r".to_string(),
        None,
        "p".to_string(),
        None,
        false,
        String::new(),
        None,
        vec![],
    );
    assert_eq!(request.mount_path, None);
    assert_eq!(request.commit_hash, None);
    assert!(!request.bpf_flag);
    assert!(request.cargo_args.is_empty());
}

#[test]
fn submit_timeout_is_five_hours() {
    assert_eq!(SUBMIT_TIMEOUT_SECS, 5 * 60 * 60);
}

#[test]
fn reporter_ticks_until_a_value_arrives() {
    assert_eq!(TICK_MILLIS, 100);
    assert_eq!(reporter_step(None), ReporterAction::Tick { rest_millis: 100 });
    assert_eq!(reporter_step(Some(true)), ReporterAction::FinishSuccess);
    assert_eq!(reporter_step(Some(false)), ReporterAction::FinishFailure);
}

#[test]
fn reporter_stops_with_the_first_value() {
    for value in [true, false] {
        let mut looks: Vec<Option<bool>> = vec![None; 12];
        looks.push(Some(value));
        let mut ticks = 0;
        let mut end = None;
        for look in looks {
            match reporter_step(look) {
                ReporterAction::Tick { .. } => ticks += 1,
                other => {
                    end = Some(other);
                    break;
                }
            }
        }
        assert_eq!(ticks, 12);
        let expected = if value { ReporterAction::FinishSuccess } else { ReporterAction::FinishFailure };
        assert_eq!(end, Some(expected));
    }
}

#[test]
fn build_uses_the_working_directory_and_the_default_image() {
    assert_eq!(
        plan_build(None, text("/home/dev/program"), None),
        Ok(BuildPlan {
            mount_path: "/home/dev/program".to_string(),
            image: "ellipsislabs/solana:latest".to_string(),
        })
    );
    assert_eq!(resolve_image(None), "ellipsislabs/solana:latest");
}

#[test]
fn build_prefers_what_was_asked_for() {
    assert_eq!(
        plan_build(text("/tmp/work/repo"), text("/home/dev"), text("custom/image:2")),
        Ok(BuildPlan { mount_path: "/tmp/work/repo".to_string(), image: "custom/image:2".to_string() })
    );
    assert_eq!(resolve_image(text("custom/image:2")), "custom/image:2");
}

#[test]
fn build_needs_a_readable_working_directory() {
    assert_eq!(plan_build(None, None, None), Err(BuildError::InvalidPath));
    assert_eq!(plan_build(text("/tmp/work/repo"), None, text("i")), Err(BuildError::InvalidPath));
}
