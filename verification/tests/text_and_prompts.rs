use iamy::catalog::GenerationContext;
use iamy::error::PipelineError;
use iamy::message::{get_context, MessageContext, ModelResponse, Role};
use iamy::prompt::{
    classification_from, classification_request, classification_text, classify, generated_artifact,
    generation_from, generation_request, generation_text, operations, recognize, ArchetypeLabel,
    CLASSIFY_HEAD, CLASSIFY_MID, COMPONENTS_KEY, DESCRIPTION_KEY, GENERATE_HEAD,
};
use iamy::text::{decimal_text, trim_quotes};

fn only_turn(m: &MessageContext) -> String {
    assert_eq!(m.turns.len(), 1);
    assert_eq!(m.turns[0].role, Role::User);
    m.turns[0].content.clone()
}

fn reply(text: &str) -> ModelResponse {
    ModelResponse { primary_text: Some(text.to_string()) }
}

#[test]
fn get_context_is_one_user_turn() {
    let m = get_context("Create an NFT marketplace", "{}");
    assert_eq!(only_turn(&m), "Context: {}\n\nUser: Create an NFT marketplace");
}

#[test]
fn get_context_with_empty_parts() {
    let m = get_context("", "");
    assert_eq!(only_turn(&m), "Context: \n\nUser: ");
}

#[test]
fn role_names() {
    assert_eq!(Role::System.name(), "system");
    assert_eq!(Role::User.name(), "user");
    assert_eq!(Role::Assistant.name(), "assistant");
}

#[test]
fn trim_quotes_strips_both_ends() {
    assert_eq!(trim_quotes("\"nft_marketplace\""), "nft_marketplace");
    assert_eq!(trim_quotes("\"\"\"crowdfund\""), "crowdfund");
    assert_eq!(trim_quotes("crowdfund"), "crowdfund");
}

#[test]
fn trim_quotes_keeps_inner_quotes() {
    assert_eq!(trim_quotes("\"a\"b\""), "a\"b");
    assert_eq!(trim_quotes("a\"\"b"), "a\"\"b");
}

#[test]
fn trim_quotes_on_nothing_but_quotes() {
    assert_eq!(trim_quotes(""), "");
    assert_eq!(trim_quotes("\""), "");
    assert_eq!(trim_quotes("\"\"\"\""), "");
}

#[test]
fn trim_quotes_agrees_with_std() {
    for s in ["\"x\"", "x\"", "\"x", "\"\u{e9}t\u{e9}\"", " \"x\" ", "\"\"", "'x'"] {
        assert_eq!(trim_quotes(s), s.trim_matches('"'));
    }
}

#[test]
fn decimal_text_values() {
    assert_eq!(decimal_text(0), "0");
    assert_eq!(decimal_text(7), "7");
    assert_eq!(decimal_text(10), "10");
    assert_eq!(decimal_text(1234567890), "1234567890");
    assert_eq!(decimal_text(u128::MAX), "340282366920938463463374607431768211455");
}

#[test]
fn archetype_names_in_order() {
    let expected = vec![
        "nft_marketplace",
        "crowdfund",
        "cw20_exchange",
        "auction_using_cw20_tokens",
        "extended_marketplace",
        "commission_based_sales",
        "vesting_and_staking",
    ];
    assert_eq!(operations(), expected);
    assert_eq!(ArchetypeLabel::NftMarketplace.name(), "nft_marketplace");
    assert_eq!(ArchetypeLabel::Crowdfund.name(), "crowdfund");
    assert_eq!(ArchetypeLabel::Cw20Exchange.name(), "cw20_exchange");
    assert_eq!(ArchetypeLabel::AuctionUsingCw20Tokens.name(), "auction_using_cw20_tokens");
    assert_eq!(ArchetypeLabel::ExtendedMarketplace.name(), "extended_marketplace");
    assert_eq!(ArchetypeLabel::CommissionBasedSales.name(), "commission_based_sales");
    assert_eq!(ArchetypeLabel::VestingAndStaking.name(), "vesting_and_staking");
}

#[test]
fn classification_text_substitutes_literally() {
    let text = classification_text("[\"a\"]", "mint ***QUERY*** and ***OPERATIONS***");
    assert_eq!(
        text,
        format!(
            "{}[\"a\"]{}mint ***QUERY*** and ***OPERATIONS***",
            CLASSIFY_HEAD, CLASSIFY_MID
        )
    );
    assert!(text.starts_with("Lets pretend that we have an LLM app"));
    assert!(text.contains("app contracts using user promtps"));
    assert!(text.contains("Classes: [\"a\"]. User's query: mint"));
}

#[test]
fn classification_request_lists_the_archetypes() {
    let m = classification_request("Create an NFT marketplace", "{\"k\":1}").unwrap();
    let list = serde_json::to_string(&operations()).unwrap();
    assert_eq!(
        list,
        "[\"nft_marketplace\",\"crowdfund\",\"cw20_exchange\",\"auction_using_cw20_tokens\",\"extended_marketplace\",\"commission_based_sales\",\"vesting_and_staking\"]"
    );
    let expected = format!(
        "Context: {{\"k\":1}}\n\nUser: {}{}{}Create an NFT marketplace",
        CLASSIFY_HEAD, list, CLASSIFY_MID
    );
    assert_eq!(only_turn(&m), expected);
}

#[test]
fn classification_from_without_list_is_an_encoding_error() {
    assert_eq!(classification_from(None, "q", "bg"), Err(PipelineError::Encoding));
    let m = classification_from(Some("[]".to_string()), "q", "bg").unwrap();
    assert_eq!(
        only_turn(&m),
        format!("Context: bg\n\nUser: {}[]{}q", CLASSIFY_HEAD, CLASSIFY_MID)
    );
}

#[test]
fn classify_strips_quotes_and_checks_nothing() {
    assert_eq!(classify(&reply("\"nft_marketplace\"")), "nft_marketplace");
    assert_eq!(classify(&reply("crowdfund")), "crowdfund");
    assert_eq!(classify(&reply("no such class")), "no such class");
    assert_eq!(classify(&reply("")), "");
    assert_eq!(classify(&ModelResponse { primary_text: None }), "");
}

#[test]
fn generation_text_ends_with_the_request() {
    assert_eq!(generation_text("sell art"), format!("{}sell art", GENERATE_HEAD));
    assert!(generation_text("x").starts_with("You will be given a description of the modules"));
    assert!(generation_text("x").contains("context and the user's query, generate"));
}

#[test]
fn generation_request_with_and_without_description() {
    let bare = GenerationContext { components: vec!["a".to_string()], description: None };
    assert_eq!(
        only_turn(&generation_request("q", &bare)),
        format!("Context: {{\"ados_components\":[\"a\"]}}\n\nUser: {}q", GENERATE_HEAD)
    );
    let described = GenerationContext {
        components: vec!["a".to_string(), "b".to_string()],
        description: Some("d".to_string()),
    };
    assert_eq!(
        only_turn(&generation_request("q", &described)),
        format!(
            "Context: {{\"ados_components\":[\"a\",\"b\"],\"application_description\":\"d\"}}\n\nUser: {}q",
            GENERATE_HEAD
        )
    );
    assert_eq!(COMPONENTS_KEY, "ados_components");
    assert_eq!(DESCRIPTION_KEY, "application_description");
}

#[test]
fn generation_request_encodes_the_context_as_json() {
    let context = GenerationContext {
        components: vec!["{\"name\":\"cw721\"}".to_string(), "line\nbreak".to_string()],
        description: Some("NFT \"sale\" contract".to_string()),
    };
    let m = generation_request("Create an NFT marketplace", &context);
    let mut object = serde_json::Map::new();
    object.insert(
        "ados_components".to_string(),
        serde_json::Value::Array(
            context.components.iter().map(|c| serde_json::Value::String(c.clone())).collect(),
        ),
    );
    object.insert(
        "application_description".to_string(),
        serde_json::Value::String("NFT \"sale\" contract".to_string()),
    );
    let background = serde_json::Value::Object(object).to_string();
    assert_eq!(
        only_turn(&m),
        format!("Context: {}\n\nUser: {}Create an NFT marketplace", background, GENERATE_HEAD)
    );
    let text = only_turn(&m);
    let start = text.find('{').unwrap();
    let end = text.find("\n\nUser: ").unwrap();
    let parsed: serde_json::Value = serde_json::from_str(&text[start..end]).unwrap();
    assert_eq!(parsed["ados_components"][0].as_str(), Some("{\"name\":\"cw721\"}"));
    assert_eq!(parsed["ados_components"][1].as_str(), Some("line\nbreak"));
    assert_eq!(parsed["application_description"].as_str(), Some("NFT \"sale\" contract"));
}

#[test]
fn generation_request_for_the_empty_context() {
    let context = GenerationContext { components: Vec::new(), description: None };
    let m = generation_request("q", &context);
    assert_eq!(
        only_turn(&m),
        format!("Context: {{\"ados_components\":[]}}\n\nUser: {}q", GENERATE_HEAD)
    );
}

#[test]
fn generation_from_puts_the_background_first() {
    let m = generation_from("{\"k\":[]}", "sell art");
    assert_eq!(
        only_turn(&m),
        format!("Context: {{\"k\":[]}}\n\nUser: {}sell art", GENERATE_HEAD)
    );
}

#[test]
fn classification_request_succeeds_on_any_text() {
    for (query, background) in [("", ""), ("\"\\\n\u{0}", "\u{ffff}"), ("***QUERY***", "{")] {
        let m = classification_request(query, background).unwrap();
        let text = only_turn(&m);
        assert!(text.starts_with(&format!("Context: {}\n\nUser: {}", background, CLASSIFY_HEAD)));
        assert!(text.ends_with(&format!("{}{}", CLASSIFY_MID, query)));
    }
}

#[test]
fn generated_artifact_is_verbatim_or_empty() {
    assert_eq!(generated_artifact(&reply("\"<schema/>\"\n")), "\"<schema/>\"\n");
    assert_eq!(generated_artifact(&ModelResponse { primary_text: None }), "");
}

#[test]
fn error_messages() {
    assert_eq!(PipelineError::ModelInvocation.message(), "model invocation failed");
    assert_eq!(
        PipelineError::CatalogIntegrity { component: "cw721".to_string() }.message(),
        "catalog names a missing component: cw721"
    );
    assert_eq!(PipelineError::Persistence.message(), "result could not be written");
    assert_eq!(PipelineError::Encoding.message(), "prompt could not be encoded");
    assert_eq!(PipelineError::UnexpectedEvent.message(), "event does not fit the stage");
}

#[test]
fn recognize_knows_exactly_the_archetypes() {
    for name in operations() {
        assert_eq!(recognize(&name).map(|l| l.name().to_string()), Some(name));
    }
    assert_eq!(recognize("crowdfund"), Some(ArchetypeLabel::Crowdfund));
    assert_eq!(recognize("vesting_and_staking"), Some(ArchetypeLabel::VestingAndStaking));
    assert_eq!(recognize(""), None);
    assert_eq!(recognize("Crowdfund"), None);
    assert_eq!(recognize("\"crowdfund\""), None);
    assert_eq!(recognize("crowdfund "), None);
}
