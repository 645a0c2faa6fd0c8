//! The two prompts, and what is read out of the model's replies.

use vstd::prelude::*;
use vstd::string::*;
use crate::catalog::{ContextView, GenerationContext};
use crate::error::PipelineError;
use crate::json::{encode_list, encode_object, json_list_text, json_object_text};
use crate::message::{get_context, turn_text, MessageContext, ModelResponse};
use crate::text::{strip_quotes, trim_quotes, views};

verus! {

/// The classification prompt up to the list of archetypes.
pub const CLASSIFY_HEAD: &'static str =
    "Lets pretend that we have an LLM app that generates Andromeda Protocol app contracts using user promtps in natural language. You will be given a user's promt. Based on the context, classify the query to one of the following classes. Classes: ";

/// The classification prompt between the list of archetypes and the request.
pub const CLASSIFY_MID: &'static str = ". User's query: ";

/// The generation prompt up to the request.
pub const GENERATE_HEAD: &'static str =
    "You will be given a description of the modules and the schema of the modules. Based on this context and the user's query, generate the schema that fulfills the users intent. User's query: ";

/// The key of the component schemas in the background of the generation
/// stage.
pub const COMPONENTS_KEY: &'static str = "ados_components";

/// The key of the description in the background of the generation stage.
pub const DESCRIPTION_KEY: &'static str = "application_description";

/// The supported application archetypes.
#[derive(Clone, Copy, Debug, PartialEq, Eq, Structural)]
pub enum ArchetypeLabel {
    NftMarketplace,
    Crowdfund,
    Cw20Exchange,
    AuctionUsingCw20Tokens,
    ExtendedMarketplace,
    CommissionBasedSales,
    VestingAndStaking,
}

/// The name under which the catalog files an archetype.
pub open spec fn label_text(label: ArchetypeLabel) -> Seq<char> {
    match label {
        ArchetypeLabel::NftMarketplace => "nft_marketplace"@,
        ArchetypeLabel::Crowdfund => "crowdfund"@,
        ArchetypeLabel::Cw20Exchange => "cw20_exchange"@,
        ArchetypeLabel::AuctionUsingCw20Tokens => "auction_using_cw20_tokens"@,
        ArchetypeLabel::ExtendedMarketplace => "extended_marketplace"@,
        ArchetypeLabel::CommissionBasedSales => "commission_based_sales"@,
        ArchetypeLabel::VestingAndStaking => "vesting_and_staking"@,
    }
}

/// The names of all archetypes, in the order the classification prompt
/// lists them.
pub open spec fn operation_names() -> Seq<Seq<char>> {
    seq![
        label_text(ArchetypeLabel::NftMarketplace),
        label_text(ArchetypeLabel::Crowdfund),
        label_text(ArchetypeLabel::Cw20Exchange),
        label_text(ArchetypeLabel::AuctionUsingCw20Tokens),
        label_text(ArchetypeLabel::ExtendedMarketplace),
        label_text(ArchetypeLabel::CommissionBasedSales),
        label_text(ArchetypeLabel::VestingAndStaking),
    ]
}

impl ArchetypeLabel {
    /// The name under which the catalog files this archetype.
    pub fn name(&self) -> (r: &'static str)
        ensures
            r@ == label_text(*self),
    {
        match self {
            ArchetypeLabel::NftMarketplace => "nft_marketplace",
            ArchetypeLabel::Crowdfund => "crowdfund",
            ArchetypeLabel::Cw20Exchange => "cw20_exchange",
            ArchetypeLabel::AuctionUsingCw20Tokens => "auction_using_cw20_tokens",
            ArchetypeLabel::ExtendedMarketplace => "extended_marketplace",
            ArchetypeLabel::CommissionBasedSales => "commission_based_sales",
            ArchetypeLabel::VestingAndStaking => "vesting_and_staking",
        }
    }
}

/// Tells which archetype a label names. A label that names none is no
/// error: the catalog will not know it, and generation goes on without
/// reference material.
pub fn recognize(label: &str) -> (r: Option<ArchetypeLabel>)
    ensures
        match r {
            Some(known) => label@ == label_text(known),
            None => forall|any: ArchetypeLabel| label@ != #[trigger] label_text(any),
        },
{
    let wanted: String = String::from_str(label);
    if wanted == String::from_str(ArchetypeLabel::NftMarketplace.name()) {
        Some(ArchetypeLabel::NftMarketplace)
    } else if wanted == String::from_str(ArchetypeLabel::Crowdfund.name()) {
        Some(ArchetypeLabel::Crowdfund)
    } else if wanted == String::from_str(ArchetypeLabel::Cw20Exchange.name()) {
        Some(ArchetypeLabel::Cw20Exchange)
    } else if wanted == String::from_str(ArchetypeLabel::AuctionUsingCw20Tokens.name()) {
        Some(ArchetypeLabel::AuctionUsingCw20Tokens)
    } else if wanted == String::from_str(ArchetypeLabel::ExtendedMarketplace.name()) {
        Some(ArchetypeLabel::ExtendedMarketplace)
    } else if wanted == String::from_str(ArchetypeLabel::CommissionBasedSales.name()) {
        Some(ArchetypeLabel::CommissionBasedSales)
    } else if wanted == String::from_str(ArchetypeLabel::VestingAndStaking.name()) {
        Some(ArchetypeLabel::VestingAndStaking)
    } else {
        None
    }
}

/// The names of all archetypes, in the order of the classification prompt.
pub fn operations() -> (r: Vec<String>)
    ensures
        views(r@) == operation_names(),
{
    let mut r: Vec<String> = Vec::new();
    r.push(String::from_str(ArchetypeLabel::NftMarketplace.name()));
    r.push(String::from_str(ArchetypeLabel::Crowdfund.name()));
    r.push(String::from_str(ArchetypeLabel::Cw20Exchange.name()));
    r.push(String::from_str(ArchetypeLabel::AuctionUsingCw20Tokens.name()));
    r.push(String::from_str(ArchetypeLabel::ExtendedMarketplace.name()));
    r.push(String::from_str(ArchetypeLabel::CommissionBasedSales.name()));
    r.push(String::from_str(ArchetypeLabel::VestingAndStaking.name()));
    assert(views(r@) =~= operation_names());
    r
}

/// The classification prompt for `query`, with the encoded list of
/// archetypes in its place.
pub open spec fn classify_text(operations_json: Seq<char>, query: Seq<char>) -> Seq<char> {
    CLASSIFY_HEAD@ + operations_json + CLASSIFY_MID@ + query
}

/// The generation prompt for `query`.
pub open spec fn generate_text(query: Seq<char>) -> Seq<char> {
    GENERATE_HEAD@ + query
}

/// The background of the generation stage: the JSON object that holds the
/// component schemas, in the order of the context, and the description
/// where the context has one.
pub open spec fn context_json(context: ContextView) -> Seq<char> {
    json_object_text(
        COMPONENTS_KEY@,
        context.components,
        DESCRIPTION_KEY@,
        context.description,
    )
}

/// Writes the classification prompt: the request is taken literally, and
/// nothing in it is expanded.
pub fn classification_text(operations_json: &str, query: &str) -> (r: String)
    ensures
        r@ == classify_text(operations_json@, query@),
{
    let mut r: String = String::from_str(CLASSIFY_HEAD);
    r.append(operations_json);
    r.append(CLASSIFY_MID);
    r.append(query);
    r
}

/// Writes the generation prompt: the request is taken literally.
pub fn generation_text(query: &str) -> (r: String)
    ensures
        r@ == generate_text(query@),
{
    let mut r: String = String::from_str(GENERATE_HEAD);
    r.append(query);
    r
}

/// The classification request, given what the encoder made of the list of
/// archetypes: an encoding error where it made nothing, else the single
/// user turn of prompt and background.
pub fn classification_from(encoded: Option<String>, query: &str, background: &str) -> (r: Result<
    MessageContext,
    PipelineError,
>)
    ensures
        match encoded {
            Some(list) => r matches Ok(m) && m.is_single_user_turn(
                turn_text(classify_text(list@, query@), background@),
            ),
            None => r matches Err(e) && e == PipelineError::Encoding,
        },
{
    match encoded {
        Some(list) => {
            let text: String = classification_text(list.as_str(), query);
            Ok(get_context(text.as_str(), background))
        },
        None => Err(PipelineError::Encoding),
    }
}

/// The request of the classification stage for `query`: the single user
/// turn of prompt and background, for every request and background.
pub fn classification_request(query: &str, background: &str) -> (r: Result<
    MessageContext,
    PipelineError,
>)
    ensures
        r matches Ok(m) && m.is_single_user_turn(
            turn_text(classify_text(json_list_text(operation_names()), query@), background@),
        ),
{
    let names: Vec<String> = operations();
    classification_from(encode_list(&names), query, background)
}

/// The label that a classification reply names: its primary text without
/// the quotes around it, or the empty label where it has no such text.
/// Whether the catalog knows the label is not looked at here.
pub fn classify(response: &ModelResponse) -> (r: String)
    ensures
        r@ == strip_quotes(response.text()),
{
    let text: String = response.text_or_empty();
    trim_quotes(text.as_str())
}

/// The generation request over a background that is already encoded: the
/// single user turn of prompt and background.
pub fn generation_from(background: &str, query: &str) -> (m: MessageContext)
    ensures
        m.is_single_user_turn(turn_text(generate_text(query@), background@)),
{
    let text: String = generation_text(query);
    get_context(text.as_str(), background)
}

/// The request of the generation stage for `query` against `context`: the
/// component schemas appear in the background in the order the context holds
/// them, the description behind them where there is one.
pub fn generation_request(query: &str, context: &GenerationContext) -> (m: MessageContext)
    ensures
        m.is_single_user_turn(turn_text(generate_text(query@), context_json(context@))),
{
    let background: String = encode_object(
        COMPONENTS_KEY,
        &context.components,
        DESCRIPTION_KEY,
        &context.description,
    );
    generation_from(background.as_str(), query)
}

/// The artifact that a generation reply carries: its primary text as it is,
/// or the empty artifact where it has no such text.
pub fn generated_artifact(response: &ModelResponse) -> (r: String)
    ensures
        r@ == response.text(),
{
    response.text_or_empty()
}

} // verus!
