use medrun::api::{
    generate_reply_from_fields, list_installed_models, parse_generate_reply, query_ollama,
    QueryRequest,
};
use medrun::hardware::{
    get_available_models, get_hardware_info, get_model_recommendations, os_name,
    recommended_model, GIB,
};
use medrun::service::{
    bundled_ollama_binary, check_ollama_status, download_model, generate_url, ollama_candidates,
    setup_bundled_ollama, start_ollama, tags_url, HttpOutcome, PullAction, PullEvent, StartAction,
    StartEvent, StartPhase,
};

fn reply(status: u16, text: &str, body: &str) -> HttpOutcome {
    HttpOutcome::Reply { status, status_text: text.to_string(), body: body.to_string() }
}

#[test]
fn four_gib_machine_gets_smallest_model() {
    let info = get_hardware_info(4 * GIB, 2 * GIB, 4, "linux");
    assert_eq!(info.recommended_model, "tinyllama");
    assert!(!info.can_run_7b);
    assert!(!info.can_run_mini);
    assert_eq!(info.os, "Linux");
    assert_eq!(info.cpu_count, 4);
    assert_eq!(info.total_memory_bytes, 4 * GIB);
}

#[test]
fn memory_thresholds_pick_models() {
    assert_eq!(recommended_model(6 * GIB - 1), "tinyllama");
    assert_eq!(recommended_model(6 * GIB), "phi3:mini");
    assert_eq!(recommended_model(8 * GIB - 1), "phi3:mini");
    assert_eq!(recommended_model(8 * GIB), "biomistral:7b");
    assert_eq!(recommended_model(0), "tinyllama");
    assert_eq!(recommended_model(u64::MAX), "biomistral:7b");
    let six = get_hardware_info(6 * GIB, 0, 1, "windows");
    assert!(six.can_run_mini && !six.can_run_7b);
    let eight = get_hardware_info(8 * GIB, 0, 1, "macos");
    assert!(eight.can_run_mini && eight.can_run_7b);
    assert_eq!(eight.os, "macOS");
    assert_eq!(six.os, "Windows");
}

#[test]
fn recommendation_never_shrinks_with_more_memory() {
    let sizes: Vec<u32> = get_available_models().iter().map(|m| m.size_mb).collect();
    let names: Vec<String> = get_available_models().iter().map(|m| m.name.clone()).collect();
    let size_of = |n: &str| sizes[names.iter().position(|x| x == n).unwrap()];
    let mut last = 0;
    for gib in 0..16u64 {
        let s = size_of(&recommended_model(gib * GIB));
        assert!(s >= last);
        last = s;
    }
}

#[test]
fn unknown_os_name() {
    assert_eq!(os_name("freebsd"), "Unknown");
    assert_eq!(os_name("linux"), "Linux");
}

#[test]
fn catalog_is_fixed() {
    let models = get_model_recommendations();
    assert_eq!(models.len(), 3);
    assert_eq!(models[0].name, "tinyllama");
    assert_eq!(models[0].size_mb, 1100);
    assert_eq!(models[0].recommended_ram_gb, 4);
    assert_eq!(models[1].name, "phi3:mini");
    assert_eq!(models[1].size_mb, 2200);
    assert_eq!(models[2].name, "biomistral:7b");
    assert_eq!(models[2].recommended_ram_gb, 8);
    assert!(models[2].is_medical && !models[0].is_medical && !models[1].is_medical);
    assert_eq!(
        models[1].description,
        "Phi-3 Mini - Balanced performance for general analysis"
    );
}

#[test]
fn refused_connection_is_not_healthy() {
    assert!(!check_ollama_status(&HttpOutcome::TransportError("connection refused".to_string())));
    assert!(!check_ollama_status(&HttpOutcome::TimedOut));
}

#[test]
fn health_needs_success_status() {
    assert!(check_ollama_status(&reply(200, "200 OK", "{}")));
    assert!(check_ollama_status(&reply(299, "299", "")));
    assert!(!check_ollama_status(&reply(500, "500 Internal Server Error", "")));
    assert!(!check_ollama_status(&reply(199, "199", "")));
}

#[test]
fn service_addresses() {
    assert_eq!(tags_url(), "http://localhost:11434/api/tags");
    assert_eq!(generate_url(), "http://localhost:11434/api/generate");
    assert_eq!(bundled_ollama_binary(true), "ollama.exe");
    assert_eq!(bundled_ollama_binary(false), "ollama");
}

#[test]
fn healthy_service_is_not_spawned() {
    let mut s = start_ollama(ollama_candidates(Ok("/app/ollama/ollama".to_string())));
    assert!(matches!(s.action(), StartAction::CheckHealth));
    s.advance(StartEvent::Health(true));
    assert_eq!(s.phase(), StartPhase::Done);
    assert_eq!(s.spawns(), 0);
    assert_eq!(s.outcome(), &Some(Ok("Ollama is already running".to_string())));
    assert!(matches!(s.action(), StartAction::Finish));
}

#[test]
fn start_falls_back_to_system_binary() {
    let mut s = start_ollama(ollama_candidates(Ok("/app/ollama/ollama".to_string())));
    s.advance(StartEvent::Health(false));
    match s.action() {
        StartAction::Spawn { path } => assert_eq!(path, "/app/ollama/ollama"),
        _ => panic!("expected a spawn"),
    }
    s.advance(StartEvent::SpawnFailed("No such file or directory".to_string()));
    match s.action() {
        StartAction::Spawn { path } => assert_eq!(path, "ollama"),
        _ => panic!("expected a spawn"),
    }
    s.advance(StartEvent::Spawned);
    match s.action() {
        StartAction::Wait { seconds } => assert_eq!(seconds, 3),
        _ => panic!("expected a wait"),
    }
    s.advance(StartEvent::Waited);
    assert!(matches!(s.action(), StartAction::CheckHealth));
    s.advance(StartEvent::Health(true));
    assert_eq!(s.outcome(), &Some(Ok("Ollama started successfully".to_string())));
    assert_eq!(s.spawns(), 1);
}

#[test]
fn start_fails_after_every_candidate() {
    let mut s = start_ollama(ollama_candidates(Err("Failed to get resource directory: x".to_string())));
    s.advance(StartEvent::Health(false));
    match s.action() {
        StartAction::Spawn { path } => assert_eq!(path, "ollama"),
        _ => panic!("expected a spawn"),
    }
    s.advance(StartEvent::Spawned);
    s.advance(StartEvent::Waited);
    s.advance(StartEvent::Health(false));
    assert_eq!(
        s.outcome(),
        &Some(Err(
            "Failed to start Ollama. Last error: Ollama process started but service is not responding"
                .to_string()
        ))
    );
    assert_eq!(s.phase(), StartPhase::Done);
}

#[test]
fn start_reports_spawn_error() {
    let mut s = start_ollama(vec![Ok("/x/ollama".to_string())]);
    s.advance(StartEvent::Health(false));
    s.advance(StartEvent::SpawnFailed("denied".to_string()));
    assert_eq!(
        s.outcome(),
        &Some(Err("Failed to start Ollama. Last error: Failed to start Ollama at \"/x/ollama\": denied".to_string()))
    );
}

#[test]
fn pull_succeeds_with_second_candidate() {
    let mut p = download_model("phi3:mini".to_string(), ollama_candidates(Ok("/b/ollama".to_string())));
    match p.action() {
        PullAction::Run { path, args } => {
            assert_eq!(path, "/b/ollama");
            assert_eq!(args, vec!["pull".to_string(), "phi3:mini".to_string()]);
        }
        _ => panic!("expected a run"),
    }
    p.advance(PullEvent::Exited { success: false, stderr: "error".to_string() });
    match p.action() {
        PullAction::Run { path, .. } => assert_eq!(path, "ollama"),
        _ => panic!("expected a run"),
    }
    p.advance(PullEvent::Exited { success: true, stderr: String::new() });
    assert_eq!(p.outcome(), &Some(Ok("Model phi3:mini downloaded successfully".to_string())));
}

#[test]
fn pull_fails_when_no_candidate_works() {
    let mut p = download_model("tinyllama".to_string(), ollama_candidates(Err("no dir".to_string())));
    p.advance(PullEvent::RunFailed("not found".to_string()));
    assert_eq!(
        p.outcome(),
        &Some(Err("Failed to download model tinyllama. Please ensure Ollama is running.".to_string()))
    );
    assert!(matches!(p.action(), PullAction::Finish));
}

#[test]
fn bundled_binary_must_exist() {
    assert_eq!(setup_bundled_ollama(true), Ok("Bundled Ollama is ready".to_string()));
    assert!(setup_bundled_ollama(false).unwrap_err().starts_with("Bundled Ollama binary not found"));
}

#[test]
fn request_body_is_json() {
    let r = QueryRequest::new("tinyllama".to_string(), "say \"hi\"\n".to_string());
    assert!(!r.stream);
    assert_eq!(
        r.to_json(),
        "{\"model\":\"tinyllama\",\"prompt\":\"say \\\"hi\\\"\\n\",\"stream\":false}"
    );
}

#[test]
fn query_reads_reply_text() {
    let body = "{\"model\":\"tinyllama\",\"response\":\"Hello\",\"done\":true,\"context\":[1,2]}";
    assert_eq!(query_ollama(&reply(200, "200 OK", body)), Ok("Hello".to_string()));
}

#[test]
fn query_errors() {
    assert_eq!(query_ollama(&HttpOutcome::TimedOut), Err("Query timeout (30s)".to_string()));
    assert_eq!(
        query_ollama(&HttpOutcome::TransportError("refused".to_string())),
        Err("Network error: refused".to_string())
    );
    assert_eq!(
        query_ollama(&reply(404, "404 Not Found", "model not found")),
        Err("Ollama API error 404 Not Found: model not found".to_string())
    );
    let bad = query_ollama(&reply(200, "200 OK", "not json")).unwrap_err();
    assert!(bad.starts_with("Failed to parse Ollama response: "));
    assert!(bad.len() > "Failed to parse Ollama response: ".len());
    assert_eq!(
        query_ollama(&reply(200, "200 OK", "{\"done\":true}")),
        Err("Failed to parse Ollama response: missing field `response`".to_string())
    );
}

#[test]
fn reply_fields_make_a_reply() {
    let r = generate_reply_from_fields(Ok((Some("x".to_string()), Some(false), None))).unwrap();
    assert_eq!(r.response, "x");
    assert!(!r.done);
    assert_eq!(r.context, None);
    assert_eq!(
        generate_reply_from_fields(Ok((Some("x".to_string()), None, None))).unwrap_err(),
        "missing field `done`"
    );
    assert_eq!(generate_reply_from_fields(Err("bad".to_string())).unwrap_err(), "bad");
    assert_eq!(
        generate_reply_from_fields(Ok((Some("x".to_string()), Some(true), Some(Err("bad context".to_string())))))
            .unwrap_err(),
        "bad context"
    );
    let with_ctx =
        generate_reply_from_fields(Ok((Some("y".to_string()), Some(true), Some(Ok(Some(vec![4, 5]))))))
            .unwrap();
    assert_eq!(with_ctx.context, Some(vec![4, 5]));
    let parsed = parse_generate_reply("{\"response\":\"ok\",\"done\":false}").unwrap();
    assert_eq!(parsed.response, "ok");
    assert_eq!(parsed.context, None);
}

#[test]
fn reply_context_is_read() {
    let parsed = parse_generate_reply("{\"response\":\"ok\",\"done\":true,\"context\":[1,2,3]}").unwrap();
    assert_eq!(parsed.context, Some(vec![1, 2, 3]));
    let null = parse_generate_reply("{\"response\":\"ok\",\"done\":true,\"context\":null}").unwrap();
    assert_eq!(null.context, None);
    assert!(parse_generate_reply("{\"response\":\"ok\",\"done\":true,\"context\":\"x\"}").is_err());
}

#[test]
fn pull_without_known_candidate_fails_at_once() {
    let p = download_model("m".to_string(), vec![Err("no dir".to_string())]);
    assert_eq!(
        p.outcome(),
        &Some(Err("Failed to download model m. Please ensure Ollama is running.".to_string()))
    );
    let q = download_model("m".to_string(), vec![Err("no dir".to_string()), Ok("ollama".to_string())]);
    assert_eq!(q.outcome(), &None);
}

#[test]
fn listing_reads_names() {
    let body = "{\"models\":[{\"name\":\"tinyllama:latest\"},{\"size\":3},{\"name\":\"phi3:mini\"}]}";
    assert_eq!(
        list_installed_models(&reply(200, "200 OK", body)),
        Ok(vec!["tinyllama:latest".to_string(), "phi3:mini".to_string()])
    );
    assert_eq!(list_installed_models(&reply(200, "200 OK", "{}")), Ok(vec![]));
}

#[test]
fn listing_errors() {
    assert_eq!(list_installed_models(&HttpOutcome::TimedOut), Err("Request timeout".to_string()));
    assert_eq!(
        list_installed_models(&reply(503, "503 Service Unavailable", "")),
        Err("Failed to get models list: 503 Service Unavailable".to_string())
    );
    assert!(list_installed_models(&reply(200, "200 OK", "[")).unwrap_err().starts_with("Failed to parse models list: "));
    assert_eq!(
        list_installed_models(&HttpOutcome::TransportError("reset".to_string())),
        Err("Network error: reset".to_string())
    );
}

#[test]
fn request_body_escapes_control_characters() {
    let r = QueryRequest::new("m".to_string(), "a\u{1}b\tc\\".to_string());
    assert_eq!(r.to_json(), "{\"model\":\"m\",\"prompt\":\"a\\u0001b\\tc\\\\\",\"stream\":false}");
}
