use deepthought::DeepThoughtError;
use deepthought::builder::DeepThoughtBuilder;
use deepthought::router::{DeepThoughtCtxModel, DeepThoughtRouter};
use deepthought::router_builder::DeepThoughtRouterBuilder;
use deepthought::store::RawHit;

fn hit(id: &str, score: f32) -> RawHit {
    RawHit {
        id: id.to_string(),
        score_bits: score.to_bits(),
        score_text: format!("{}", score),
    }
}

fn route_config() -> DeepThoughtBuilder {
    DeepThoughtBuilder::new()
        .chat_model_gguf("chat.gguf".to_string())
        .embed_model_gguf("embed.gguf".to_string())
        .dbpath("/tmp/route-db".to_string())
        .chunk_size(20)
        .chunk_overlap(5)
}

#[test]
fn route_registration_replaces_and_drops() {
    let mut router = DeepThoughtRouter::new().unwrap();
    router.new_route("r1", route_config()).unwrap();
    router.new_route("r1", route_config()).unwrap();
    assert_eq!(router.list_routes().len(), 1);
    assert!(router.get_route("r1").is_some());
    assert!(router.get_route("r2").is_none());
    router.drop_route("r1").unwrap();
    assert!(matches!(router.drop_route("r1"), Err(DeepThoughtError::NotFound(_))));
    assert_eq!(router.list_routes().len(), 0);
}

#[test]
fn route_misconfiguration_registers_nothing() {
    let mut router = DeepThoughtRouter::new().unwrap();
    let bad = DeepThoughtBuilder::new().chunk_size(5).chunk_overlap(5);
    let r = router.new_route("r1", bad);
    assert!(matches!(r, Err(DeepThoughtError::Configuration(_))));
    assert_eq!(router.list_routes().len(), 0);
}

#[test]
fn ctx_route_registry() {
    let mut router = DeepThoughtRouter::new().unwrap();
    let m = DeepThoughtCtxModel::new("ctx.gguf", "You are context.");
    router.new_ctx_route("c1", m).unwrap();
    assert_eq!(router.list_ctx_routes().len(), 1);
    let got = router.get_ctx_route("c1").unwrap();
    assert_eq!(got.path, "ctx.gguf");
    assert_eq!(got.system_prompt, "You are context.");
    router.drop_ctx_route("c1").unwrap();
    assert!(matches!(router.drop_ctx_route("c1"), Err(DeepThoughtError::NotFound(_))));
}

#[test]
fn end_to_end_rag_scenario() {
    // Register a route with an embed model and a store, add a document with
    // chunk_size 20 and overlap 5, query with k = 1, alpha = 0.7 and
    // max_score = 1.0: exactly one neighbor whose text contains "sky".
    let mut router = DeepThoughtRouter::new().unwrap();
    router.new_route("main", route_config()).unwrap();

    let mut route = router.take_route("main").unwrap();
    let plans = route.add_document("The sky is blue. Grass is green.").unwrap();
    assert_eq!(plans.len(), 2);
    // The embedding collaborator would embed each chunk here; the store
    // applies them one at a time.
    for plan in &plans {
        route.apply_chunk(plan).unwrap();
    }
    assert_eq!(route.len(), 2);

    // The query prefix and text the collaborator would embed.
    let embed_input = route.query_embed_input("sky color").unwrap();
    assert_eq!(embed_input, " sky color");

    // The hybrid index's raw answer for keyword "sky": the chunk holding
    // "sky" scores best.
    if let Some(store) = &mut route.vecstore {
        store.configure_query(1, 0.7f32.to_bits(), 1.0f32.to_bits());
    }
    let raw = vec![hit(&plans[0].id, 0.12), hit(&plans[1].id, 0.80)];
    let texts = route.query_vecstore(&raw).unwrap();
    assert_eq!(texts.len(), 1);
    assert!(texts[0].contains("sky"));

    router.put_route("main", route);
    let texts = router.query_vecstore("main", &raw).unwrap();
    assert_eq!(texts.len(), 1);
    assert!(texts[0].contains("sky"));
}

#[test]
fn rag_bundle_and_augmentation() {
    let mut router = DeepThoughtRouter::new().unwrap();
    router.new_route("main", route_config()).unwrap();
    let mut route = router.take_route("main").unwrap();
    let plans = route.add_document("The sky is blue. Grass is green.").unwrap();
    for plan in &plans {
        route.apply_chunk(plan).unwrap();
    }
    route.register_template("rag", "CONTEXT: {{ text }}").unwrap();
    router.put_route("main", route);

    let raw = vec![hit("doc-unknown", 0.1), hit(&plans[0].id, 0.2)];
    let bundle = router
        .query_vecstore_templated("main", "rag", &raw, "sky color")
        .unwrap();
    assert_eq!(bundle.query, "sky color");
    assert_eq!(bundle.rag.len(), 1);
    assert_eq!(bundle.rag[0], "CONTEXT: The sky is blue. Gra");

    router.rag_augment("main", &bundle).unwrap();
    let route = router.get_route("main").unwrap();
    let msgs = route.context().messages();
    assert_eq!(msgs.last().unwrap().text, "CONTEXT: The sky is blue. Gra");

    assert!(matches!(
        router.rag_augment("missing", &bundle),
        Err(DeepThoughtError::NotFound(_))
    ));
}

#[test]
fn route_conversation_bookkeeping() {
    let mut route = deepthought::route::DeepThought::new("chat.gguf").unwrap();
    assert_eq!(route.context().messages().len(), 1);
    route.add_inference_to_prompt("retrieved context").unwrap();
    route.record_exchange("what color is the sky?", "blue").unwrap();
    let msgs = route.context().messages();
    assert_eq!(msgs.len(), 4);
    assert_eq!(msgs[1].text, "retrieved context");
    assert_eq!(msgs[2].text, "what color is the sky?");
    assert_eq!(msgs[3].text, "blue");
    route.reset_messages(Some("fresh start")).unwrap();
    assert_eq!(route.context().messages().len(), 1);
    assert_eq!(route.context().messages()[0].text, "fresh start");
}

#[test]
fn embedding_dependent_operations_require_embedder() {
    let mut route = deepthought::route::DeepThought::new("chat.gguf").unwrap();
    assert!(matches!(
        route.add_document("text"),
        Err(DeepThoughtError::Configuration(_))
    ));
    assert!(matches!(
        route.query_embed_input("q"),
        Err(DeepThoughtError::Configuration(_))
    ));
    route.embed_model("embed.gguf").unwrap();
    // Still no store: adding a document keeps failing.
    assert!(matches!(
        route.add_document("text"),
        Err(DeepThoughtError::Configuration(_))
    ));
}

#[test]
fn catalog_ingestion_and_query() {
    let mut router = DeepThoughtRouterBuilder::default()
        .prompt_model("p.gguf")
        .default_embed_model("e.gguf")
        .embedding_query_prefix("query:")
        .catalog_path("/tmp/catalog")
        .build()
        .unwrap();

    let plan = router.add_url_to_catalog("a service", "https://svc.test").unwrap();
    assert!(plan.tags.contains(&("tag.url".to_string(), "https://svc.test".to_string())));
    assert!(plan.tags.contains(&("tag.type".to_string(), "url".to_string())));
    router.apply_catalog_chunk(&plan).unwrap();

    let plan2 = router
        .add_endpoint_to_catalog("rest", "an endpoint", "https://api.test")
        .unwrap();
    assert!(plan2.tags.contains(&("tag.endpoint_type".to_string(), "rest".to_string())));
    router.apply_catalog_chunk(&plan2).unwrap();

    let plan3 = router.add_route_to_catalog("route doc", "main").unwrap();
    assert!(plan3.tags.contains(&("tag.route".to_string(), "main".to_string())));
    router.apply_catalog_chunk(&plan3).unwrap();

    assert_eq!(router.catalog_query_input("find service").unwrap(), "query: find service");

    let raw = vec![hit(&plan.id, 0.1)];
    let neighbors = router.query_catalog(&raw).unwrap();
    assert_eq!(neighbors.len(), 1);
    assert_eq!(neighbors[0].id, plan.id);
    assert!(neighbors[0].metadata.contains(&("text".to_string(), "a service".to_string())));
    assert!(neighbors[0].metadata.contains(&("n".to_string(), "0".to_string())));
    assert!(
        neighbors[0].metadata.contains(&("tag.url".to_string(), "https://svc.test".to_string()))
    );
}

#[test]
fn catalog_requires_configuration() {
    let mut router = DeepThoughtRouter::new().unwrap();
    assert!(matches!(
        router.add_url_to_catalog("doc", "u"),
        Err(DeepThoughtError::Configuration(_))
    ));
    let raw: Vec<RawHit> = vec![];
    assert!(matches!(router.query_catalog(&raw), Err(DeepThoughtError::Configuration(_))));
}

#[test]
fn route_sync_reclaims_tombstones() {
    let mut router = DeepThoughtRouter::new().unwrap();
    router.new_route("main", route_config()).unwrap();
    let mut route = router.take_route("main").unwrap();
    let plan = route.add_string("only one").unwrap();
    route.apply_chunk(&plan).unwrap();
    assert_eq!(route.len(), 1);
    route.delete_record(&plan.id).unwrap();
    assert_eq!(route.len(), 0);
    route.sync().unwrap();
    assert_eq!(route.len(), 0);
    assert!(route.get(&plan.id).is_err());
}

#[test]
fn error_messages_carry_text() {
    let e = DeepThoughtError::NotFound("Route not found".to_string());
    assert_eq!(e.message(), "Route not found");
    let e = DeepThoughtError::Capacity("Context is full".to_string());
    assert_eq!(e.message(), "Context is full");
    let e = DeepThoughtError::Store("io".to_string());
    assert_eq!(e.message(), "io");
}

#[test]
fn builder_defaults_match_documented_configuration() {
    let route = DeepThoughtBuilder::new().build().unwrap();
    assert_eq!(route.dbpath, "db");
    assert_eq!(route.model.path, "chat.gguf");
    assert_eq!(route.model.system_prompt, "You are the robot!");
    assert_eq!(route.model.context_length, 4096 * 4);
    assert_eq!(route.model.batch_size, 4096 * 4);
    assert!(route.embed_model.is_none());
    let store = route.vecstore.as_ref().unwrap();
    assert_eq!(store.chunk_size(), 1024);
    assert_eq!(store.chunk_overlap(), 128);
    assert_eq!(store.k(), 10);
    assert_eq!(f32::from_bits(store.alpha_bits()), 0.7);
    assert_eq!(f32::from_bits(store.max_score_bits()), 0.3);
    assert_eq!(store.path().as_deref(), Some("db"));

    let bad = DeepThoughtBuilder::new().chunk_overlap(2048).build();
    assert!(matches!(bad, Err(DeepThoughtError::Configuration(_))));
}
