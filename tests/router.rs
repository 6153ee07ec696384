use axial::providers::{OllamaProvider, OpenAIProvider};
use axial::router::{
    rationale_text, Capability, PrivacyLevel, Provider, ProviderInfo, Router, RouterError,
};

fn mock(id: &str, privacy: PrivacyLevel) -> ProviderInfo {
    ProviderInfo {
        id: id.to_string(),
        name: id.to_string(),
        capabilities: vec![Capability { name: "text".to_string(), score: 80, cost_micros_per_1k_tokens: 100_000 }],
        latency_ms: 100,
        privacy_level: privacy,
    }
}

#[test]
fn test_router_privacy_strategy() {
    let mut router = Router::new();
    router.add_provider(mock("local", PrivacyLevel::Local));
    router.add_provider(mock("cloud", PrivacyLevel::Cloud));

    let decision = router.route(vec!["text".to_string()], "privacy_first").unwrap();
    assert_eq!(decision.provider_id, "local");

    let decision_perf = router.route(vec!["text".to_string()], "performance").unwrap();
    assert!(!decision_perf.provider_id.is_empty());
}

#[test]
fn privacy_first_picks_local_in_either_order() {
    let mut router = Router::new();
    router.add_provider(mock("cloud", PrivacyLevel::Cloud));
    router.add_provider(mock("local", PrivacyLevel::Local));
    let d = router.route_among(&vec![true, true], vec!["text".to_string()], "privacy_first").unwrap();
    assert_eq!(d.provider_id, "local");
    assert_eq!(d.strategy_used, "privacy_first");
}

#[test]
fn ties_go_to_the_earlier_registration() {
    let mut router = Router::new();
    router.add_provider(mock("first", PrivacyLevel::Cloud));
    router.add_provider(mock("second", PrivacyLevel::Cloud));
    let d = router.route_among(&vec![true, true], vec!["text".to_string()], "performance").unwrap();
    assert_eq!(d.provider_id, "first");
    let d = router.route_among(&vec![false, true], vec!["text".to_string()], "performance").unwrap();
    assert_eq!(d.provider_id, "second");
}

#[test]
fn exhausted_provider_is_not_chosen() {
    let mut router = Router::new();
    router.add_provider(mock("local", PrivacyLevel::Local));
    router.add_provider(mock("cloud", PrivacyLevel::Cloud));
    let d = router.route_among(&vec![false, true], vec!["text".to_string()], "privacy_first").unwrap();
    assert_eq!(d.provider_id, "cloud");
    match router.route_among(&vec![false, false], vec!["text".to_string()], "privacy_first") {
        Err(RouterError::NoProviderFound(reqs)) => assert_eq!(reqs, vec!["text".to_string()]),
        _ => panic!("expected NoProviderFound"),
    }
}

#[test]
fn bucket_runs_out_after_ten_quick_routes() {
    let mut router = Router::new();
    router.add_provider(mock("only", PrivacyLevel::Local));
    let mut found = 0;
    let mut refused = 0;
    for _ in 0..11 {
        match router.route(vec!["text".to_string()], "performance") {
            Ok(d) => {
                assert_eq!(d.provider_id, "only");
                found += 1;
            }
            Err(RouterError::NoProviderFound(_)) => refused += 1,
            Err(_) => panic!("unexpected error"),
        }
    }
    assert!(found >= 10);
    assert!(found + refused == 11);
}

#[test]
fn empty_router_finds_no_provider() {
    let router = Router::new();
    assert!(matches!(
        router.route(vec!["text".to_string()], "performance"),
        Err(RouterError::NoProviderFound(_))
    ));
}

#[test]
fn scores_follow_the_rule() {
    let router = Router::new();
    let reqs = vec!["text".to_string()];
    let local = mock("local", PrivacyLevel::Local);
    let cloud = mock("cloud", PrivacyLevel::Cloud);
    let shielded = mock("shielded", PrivacyLevel::Shielded);
    assert_eq!(router.score_provider(&local, &reqs, "privacy_first"), 2_900_000);
    assert_eq!(router.score_provider(&shielded, &reqs, "privacy_first"), 900_000);
    assert_eq!(router.score_provider(&cloud, &reqs, "privacy_first"), -2_100_000);
    assert_eq!(router.score_provider(&local, &reqs, "performance"), 2_650_000);
    assert_eq!(router.score_provider(&local, &reqs, "cost_efficient"), 1_300_000);
    assert_eq!(router.score_provider(&local, &reqs, "unknown"), 400_000);
    assert_eq!(router.score_provider(&local, &vec!["absent".to_string()], "unknown"), 0);
}

#[test]
fn weights_apply_to_named_capabilities() {
    let router = Router::new();
    let p = ProviderInfo {
        id: "p".to_string(),
        name: "p".to_string(),
        capabilities: vec![
            Capability { name: "code-editing".to_string(), score: 60, cost_micros_per_1k_tokens: 0 },
            Capability { name: "reasoning".to_string(), score: 50, cost_micros_per_1k_tokens: 0 },
            Capability { name: "speed".to_string(), score: 40, cost_micros_per_1k_tokens: 0 },
            Capability { name: "code-editing".to_string(), score: 10, cost_micros_per_1k_tokens: 0 },
        ],
        latency_ms: 2000,
        privacy_level: PrivacyLevel::Cloud,
    };
    let reqs = vec!["code-editing".to_string(), "reasoning".to_string(), "speed".to_string()];
    // 60 * 1.5 + 50 * 2.0 + 40 * 1.0 = 230 points
    assert_eq!(router.score_provider(&p, &reqs, "performance"), 230 * 5000);
    // mean cost 0: 200 points more
    assert_eq!(router.score_provider(&p, &reqs, "cost_efficient"), 430 * 5000);
}

#[test]
fn re_registering_replaces_in_place() {
    let mut router = Router::new();
    router.add_provider(mock("a", PrivacyLevel::Cloud));
    router.add_provider(mock("b", PrivacyLevel::Cloud));
    router.add_provider(mock("a", PrivacyLevel::Local));
    assert_eq!(router.providers().len(), 2);
    assert_eq!(router.providers()[0].id, "a");
    assert_eq!(router.providers()[0].privacy_level, PrivacyLevel::Local);
}

#[test]
fn rationale_names_provider_and_requirements() {
    let p = mock("local", PrivacyLevel::Local);
    let text = rationale_text(&p, &vec!["text".to_string(), "code".to_string()], "privacy_first");
    assert_eq!(text, "Selected local (privacy: Local) for requirements [text, code] using strategy 'privacy_first'");
}

#[test]
fn shipped_providers_describe_themselves() {
    let o = OllamaProvider { model: "llama3".to_string(), base_url: "http://localhost:11434".to_string() };
    let info = o.info();
    assert_eq!(info.id, "ollama-llama3");
    assert_eq!(info.name, "Ollama (llama3)");
    assert_eq!(info.privacy_level, PrivacyLevel::Local);
    let a = OpenAIProvider { model: "gpt-4o".to_string(), api_key: "k".to_string() };
    let info = a.info();
    assert_eq!(info.id, "openai-gpt-4o");
    assert_eq!(info.capabilities[2].cost_micros_per_1k_tokens, 30_000);
    let mut router = Router::new();
    router.add_provider(o.info());
    router.add_provider(a.info());
    let d = router.route_among(&vec![true, true], vec!["text-generation".to_string()], "performance").unwrap();
    assert_eq!(d.provider_id, "ollama-llama3");
}

#[test]
fn decompose_refactor_goal_into_chain() {
    let router = Router::new();
    let plan = router.decompose("refactor the parser");
    let ids: Vec<&str> = plan.graph.nodes.iter().map(|n| n.id.as_str()).collect();
    assert_eq!(ids, vec!["analyze", "edit", "test"]);
    assert_eq!(plan.graph.nodes[1].task_type, "coding");
    assert_eq!(plan.graph.nodes[0].params, "{\"goal\":\"Analyze codebase for refactoring targets\"}");
    assert_eq!(plan.graph.edges.len(), 2);
    assert_eq!(plan.graph.edges[0].from, "analyze");
    assert_eq!(plan.graph.edges[1].to, "test");
    assert_eq!(plan.title, "Plan for: refactor the parser");
    assert_eq!(plan.version, "1.0");
}

#[test]
fn decompose_other_goal_into_one_task() {
    let router = Router::new();
    let plan = router.decompose("write \"docs\"");
    assert_eq!(plan.graph.nodes.len(), 1);
    assert_eq!(plan.graph.nodes[0].id, "generic-task");
    assert_eq!(plan.graph.nodes[0].task_type, "nlp");
    assert_eq!(plan.graph.nodes[0].params, "{\"goal\":\"write \\\"docs\\\"\"}");
    assert!(plan.graph.edges.is_empty());
    assert!(plan.metadata.is_empty());
}

#[test]
fn no_requirements_ranks_by_strategy_alone() {
    let mut router = Router::new();
    let mut slow = mock("slow", PrivacyLevel::Local);
    slow.latency_ms = 900;
    router.add_provider(slow);
    router.add_provider(mock("fast", PrivacyLevel::Cloud));
    let d = router.route_among(&vec![true, true], vec![], "performance").unwrap();
    assert_eq!(d.provider_id, "fast");
    assert_eq!(d.explanation, "Selected fast (privacy: Cloud) for requirements [] using strategy 'performance'");
    let d = router.route_among(&vec![true, true], vec![], "privacy_first").unwrap();
    assert_eq!(d.provider_id, "slow");
}
