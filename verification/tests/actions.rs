use agent_runtime::action::{
    check_arguments, decode_envelope, decode_parsed, validate_argument_limits, ActionProposal,
    ActionValidationError, ActionValidator, TextActionDecoder, ValidatedAction,
    MAX_ACTION_ARGUMENT_ARRAY_ELEMENTS, MAX_ACTION_ARGUMENT_BYTES, MAX_ACTION_ARGUMENT_DEPTH,
    MAX_ACTION_ARGUMENT_KEYS, MAX_ACTION_ARGUMENT_NODES, MAX_ACTION_TOOL_NAME_BYTES,
    MAX_PLANNING_RESPONSE_BYTES,
};
use agent_runtime::events::{ActionRejectionReason, CapabilityKind};
use agent_runtime::ids::{ActionProposalId, ModelCallId, ToolCallId, ToolName};
use agent_runtime::model::{ModelOutputPart, ModelResponse};
use agent_runtime::schema::{
    compile_tool_schema, ToolSchemaRegistrationError, MAX_TOOL_SCHEMA_BYTES, MAX_TOOL_SCHEMA_DEPTH,
    MAX_TOOL_SCHEMA_KEYS,
};
use agent_runtime::tools::{
    ExecutionKind, ToolDefinition, ToolDefinitionError, ToolInput, ToolRegistry, ToolRegistryError,
    ToolSchema,
};
use serde_json::Value;

fn json(text: &str) -> Value {
    serde_json::from_str(text).expect("the literal is JSON")
}

fn response(text: &str) -> ModelResponse {
    ModelResponse::new(vec![ModelOutputPart::Text(text.to_owned())], None)
}

fn decode(text: &str) -> Result<ActionProposal, ActionValidationError> {
    TextActionDecoder::decode(&response(text), ActionProposalId(1), ModelCallId(2))
}

fn proposed(text: &str) -> ActionProposal {
    match decode(text) {
        Ok(proposal) => proposal,
        Err(error) => panic!("proposal must decode: {:?}", error.reason()),
    }
}

fn rejected(text: &str) -> ActionRejectionReason {
    match decode(text) {
        Ok(_) => panic!("output must be rejected"),
        Err(error) => {
            assert_eq!(error.proposal_id(), ActionProposalId(1));
            assert_eq!(error.model_call_id(), ModelCallId(2));
            error.reason()
        }
    }
}

fn validated(
    proposal: ActionProposal,
    registry: &ToolRegistry,
) -> Result<ValidatedAction, ActionRejectionReason> {
    ActionValidator::validate(proposal, registry).map_err(|error| error.reason())
}

fn name(text: &str) -> ToolName {
    ToolName::new(text.to_owned()).expect("tool name must be valid")
}

fn definition(text: &str, schema: Value) -> ToolDefinition {
    let schema = match ToolSchema::new(schema) {
        Ok(schema) => schema,
        Err(_) => panic!("schema must be an object"),
    };
    match ToolDefinition::new(
        name(text),
        "test tool".to_owned(),
        CapabilityKind::ReadOnly,
        schema,
    ) {
        Ok(definition) => definition,
        Err(_) => panic!("definition must be valid"),
    }
}

fn register(registry: &mut ToolRegistry, schema: Value) -> Result<(), ToolRegistryError> {
    registry.register(definition("lookup", schema), ExecutionKind::Direct)
}

fn registry(text: &str, schema: Value) -> ToolRegistry {
    let mut registry = ToolRegistry::new();
    if registry
        .register(definition(text, schema), ExecutionKind::Direct)
        .is_err()
    {
        panic!("tool must register");
    }
    registry
}

#[test]
fn exact_action_envelope_decodes_without_normalizing_tool_name() {
    let proposal = proposed(r#"{"action":{"tool":"ExactTool","arguments":{"value":1}}}"#);

    assert_eq!(proposal.tool_name().as_str(), "ExactTool");
    assert_eq!(proposal.arguments().as_value(), &json(r#"{"value": 1}"#));
    assert_eq!(proposal.id(), ActionProposalId(1));
    assert_eq!(proposal.source_model_call_id(), ModelCallId(2));
}

#[test]
fn malformed_fenced_prose_trailing_missing_and_unknown_envelopes_are_rejected() {
    for invalid in [
        "not-json",
        "```json\n{\"action\":{\"tool\":\"lookup\",\"arguments\":{}}}\n```",
        "prose {\"action\":{\"tool\":\"lookup\",\"arguments\":{}}}",
        "{\"action\":{\"tool\":\"lookup\",\"arguments\":{}}} trailing",
        "{}",
        "{\"action\":{\"tool\":\"lookup\"}}",
        "{\"action\":{\"tool\":\"lookup\",\"arguments\":{},\"extra\":1}}",
        "{\"action\":{\"tool\":\"lookup\",\"arguments\":{}},\"extra\":1}",
        "{\"action\":{\"tool\":\" lookup\",\"arguments\":{}}}",
    ] {
        assert!(matches!(
            rejected(invalid),
            ActionRejectionReason::MalformedEnvelope | ActionRejectionReason::InvalidToolName
        ));
    }
}

#[test]
fn duplicate_envelope_and_nested_argument_keys_are_rejected_during_decoding() {
    for duplicate in [
        r#"{"action":{"tool":"lookup","tool":"other","arguments":{}}}"#,
        r#"{"action":{"tool":"lookup","arguments":{}},"action":{"tool":"other","arguments":{}}}"#,
        r#"{"action":{"tool":"lookup","arguments":{"nested":{"key":1,"key":2}}}}"#,
    ] {
        assert_eq!(
            rejected(duplicate),
            ActionRejectionReason::MalformedEnvelope
        );
    }
}

#[test]
fn decoder_rejects_empty_oversized_and_unsupported_output_shapes() {
    assert_eq!(rejected("   "), ActionRejectionReason::EmptyOutput);

    assert_eq!(
        rejected(&"x".repeat(MAX_PLANNING_RESPONSE_BYTES + 1)),
        ActionRejectionReason::ResponseTooLarge
    );

    let response = ModelResponse::new(
        vec![
            ModelOutputPart::Text("{}".to_owned()),
            ModelOutputPart::Text("{}".to_owned()),
        ],
        None,
    );
    match TextActionDecoder::decode(&response, ActionProposalId(1), ModelCallId(2)) {
        Ok(_) => panic!("multiple text parts must fail atomically"),
        Err(error) => assert_eq!(
            error.reason(),
            ActionRejectionReason::UnsupportedOutputShape
        ),
    }
}

#[test]
fn argument_complexity_limits_are_enforced_before_validation() {
    let oversized_name = "x".repeat(MAX_ACTION_TOOL_NAME_BYTES + 1);
    assert_eq!(
        rejected(&format!(
            "{{\"action\":{{\"tool\":\"{oversized_name}\",\"arguments\":{{}}}}}}"
        )),
        ActionRejectionReason::SecurityLimitExceeded
    );

    let mut nested = "{}".to_owned();
    for _ in 0..MAX_ACTION_ARGUMENT_DEPTH {
        nested = format!("{{\"nested\":{nested}}}");
    }
    assert_eq!(
        rejected(&format!(
            "{{\"action\":{{\"tool\":\"lookup\",\"arguments\":{nested}}}}}"
        )),
        ActionRejectionReason::SecurityLimitExceeded
    );

    let keys = (0..=MAX_ACTION_ARGUMENT_KEYS)
        .map(|index| format!("\"key_{index}\":{index}"))
        .collect::<Vec<_>>()
        .join(",");
    assert_eq!(
        rejected(&format!(
            "{{\"action\":{{\"tool\":\"lookup\",\"arguments\":{{{keys}}}}}}}"
        )),
        ActionRejectionReason::SecurityLimitExceeded
    );

    let oversized_arguments = "x".repeat(MAX_ACTION_ARGUMENT_BYTES);
    assert_eq!(
        rejected(&format!(
            "{{\"action\":{{\"tool\":\"lookup\",\"arguments\":{{\"value\":\"{oversized_arguments}\"}}}}}}"
        )),
        ActionRejectionReason::SecurityLimitExceeded
    );

    let excessive_array = (0..=MAX_ACTION_ARGUMENT_ARRAY_ELEMENTS)
        .map(|value| value.to_string())
        .collect::<Vec<_>>()
        .join(",");
    assert_eq!(
        rejected(&format!(
            "{{\"action\":{{\"tool\":\"lookup\",\"arguments\":{{\"values\":[{excessive_array}]}}}}}}"
        )),
        ActionRejectionReason::SecurityLimitExceeded
    );
}

#[test]
fn schema_profile_is_context_aware_and_explicitly_draft_2020_12() {
    let schema = json(
        r#"{
        "$schema": "https://json-schema.org/draft/2020-12/schema",
        "type": "object",
        "title": "Action arguments",
        "description": "Annotations are permitted",
        "properties": {
            "oneOf": {"type": "string"},
            "custom_property_name": {
                "enum": [{"oneOf": "data, not schema"}],
                "const": {"$ref": "also data"}
            }
        },
        "additionalProperties": false
    }"#,
    );
    let registry_with_draft = registry("lookup", schema);
    let binding = registry_with_draft
        .get(&name("lookup"))
        .expect("binding must exist");

    assert_eq!(binding.validator().draft(), jsonschema::Draft::Draft202012);

    let registry_without_draft = registry(
        "lookup",
        json(r#"{"type": "object", "additionalProperties": true}"#),
    );
    let binding_without_draft = registry_without_draft
        .get(&name("lookup"))
        .expect("binding must exist");
    assert_eq!(
        binding_without_draft.validator().draft(),
        jsonschema::Draft::Draft202012
    );
}

#[test]
fn wrong_draft_and_unsupported_schema_keywords_fail_registration() {
    for schema in [
        r##"{"$schema": "http://json-schema.org/draft-07/schema#", "type": "object"}"##,
        r##"{"type": "object", "$ref": "#/$defs/action"}"##,
        r##"{"type": "object", "$dynamicRef": "#action"}"##,
        r#"{"type": "object", "format": "custom"}"#,
        r#"{"type": "object", "pattern": ".*"}"#,
        r#"{"type": "object", "patternProperties": {".*": {"type": "string"}}}"#,
        r#"{"type": "object", "oneOf": [{"type": "object"}]}"#,
        r#"{"type": "object", "anyOf": [{"type": "object"}]}"#,
        r#"{"type": "object", "allOf": [{"type": "object"}]}"#,
        r#"{"type": "object", "not": {"type": "string"}}"#,
        r#"{"type": "object", "if": {"type": "object"}}"#,
        r#"{"type": "object", "then": {"type": "object"}}"#,
        r#"{"type": "object", "else": {"type": "object"}}"#,
        r#"{"type": "object", "unevaluatedProperties": false}"#,
        r#"{"type": "object", "dependentSchemas": {}}"#,
        r#"{"type": ["object", "null"]}"#,
        r#"{"type": "object", "customKeyword": true}"#,
    ] {
        let mut registry = ToolRegistry::new();
        assert!(matches!(
            register(&mut registry, json(schema)),
            Err(ToolRegistryError::InvalidInputSchema {
                reason: ToolSchemaRegistrationError::UnsupportedProfile,
                ..
            })
        ));
        assert!(registry.is_empty());
    }
}

fn assert_schema_registration_reason(schema: Value, expected: ToolSchemaRegistrationError) {
    let mut registry = ToolRegistry::new();
    assert!(matches!(
        register(&mut registry, schema),
        Err(ToolRegistryError::InvalidInputSchema { reason, .. }) if reason == expected
    ));
}

#[test]
fn schema_size_depth_and_key_limits_fail_registration() {
    let oversized = json(&format!(
        "{{\"type\": \"object\", \"description\": \"{}\"}}",
        "x".repeat(MAX_TOOL_SCHEMA_BYTES)
    ));
    assert_schema_registration_reason(oversized, ToolSchemaRegistrationError::TooLarge);

    let mut deeply_nested = r#"{"type": "string"}"#.to_owned();
    for _ in 0..MAX_TOOL_SCHEMA_DEPTH {
        deeply_nested = format!("{{\"type\": \"array\", \"items\": {deeply_nested}}}");
    }
    assert_schema_registration_reason(
        json(&deeply_nested),
        ToolSchemaRegistrationError::TooComplex,
    );

    let properties = (0..MAX_TOOL_SCHEMA_KEYS)
        .map(|index| format!("\"property_{index}\": {{\"type\": \"string\"}}"))
        .collect::<Vec<_>>()
        .join(",");
    assert_schema_registration_reason(
        json(&format!(
            "{{\"type\": \"object\", \"properties\": {{{properties}}}}}"
        )),
        ToolSchemaRegistrationError::TooComplex,
    );
}

#[test]
fn schema_controls_unknown_argument_properties() {
    let proposal = || proposed(r#"{"action":{"tool":"lookup","arguments":{"unknown":1}}}"#);
    let permissive = registry(
        "lookup",
        json(r#"{"type": "object", "additionalProperties": true}"#),
    );
    let restrictive = registry(
        "lookup",
        json(
            r#"{
            "type": "object",
            "properties": {},
            "additionalProperties": false
        }"#,
        ),
    );

    assert!(validated(proposal(), &permissive).is_ok());
    assert!(matches!(
        validated(proposal(), &restrictive),
        Err(ActionRejectionReason::ArgumentsSchemaMismatch)
    ));
}

#[test]
fn exact_tool_name_lookup_and_schema_validation_are_distinct() {
    let registry = registry(
        "ExactTool",
        json(
            r#"{
            "type": "object",
            "properties": {"count": {"type": "integer", "minimum": 1}},
            "required": ["count"],
            "additionalProperties": false
        }"#,
        ),
    );

    let unknown = proposed(r#"{"action":{"tool":"exacttool","arguments":{"count":1}}}"#);
    assert!(matches!(
        validated(unknown, &registry),
        Err(ActionRejectionReason::UnknownTool)
    ));

    let invalid = proposed(r#"{"action":{"tool":"ExactTool","arguments":{"count":0}}}"#);
    assert!(matches!(
        validated(invalid, &registry),
        Err(ActionRejectionReason::ArgumentsSchemaMismatch)
    ));

    let valid = proposed(r#"{"action":{"tool":"ExactTool","arguments":{"count":1}}}"#);
    assert!(validated(valid, &registry).is_ok());
}

#[test]
fn validator_reapplies_structural_limits_for_non_text_candidates() {
    let registry = registry(
        "lookup",
        json(r#"{"type": "object", "additionalProperties": true}"#),
    );
    let proposal = ActionProposal::new(
        ActionProposalId(1),
        ModelCallId(2),
        name("lookup"),
        ToolInput::new(json(&format!(
            "{{\"value\": \"{}\"}}",
            "x".repeat(MAX_ACTION_ARGUMENT_BYTES)
        ))),
    );
    assert!(matches!(
        validated(proposal, &registry),
        Err(ActionRejectionReason::SecurityLimitExceeded)
    ));

    let non_object = ActionProposal::new(
        ActionProposalId(1),
        ModelCallId(2),
        name("lookup"),
        ToolInput::new(json(r#"["not", "an", "object"]"#)),
    );
    assert!(matches!(
        validated(non_object, &registry),
        Err(ActionRejectionReason::ArgumentsSchemaMismatch)
    ));
}

#[test]
fn arguments_at_their_limits_are_accepted() {
    let mut nested = "0".to_owned();
    for _ in 0..MAX_ACTION_ARGUMENT_DEPTH - 1 {
        nested = format!("{{\"n\":{nested}}}");
    }
    assert_eq!(validate_argument_limits(&json(&nested)), Ok(()));
    assert_eq!(
        validate_argument_limits(&json(&format!("{{\"n\":{nested}}}"))),
        Err(ActionRejectionReason::SecurityLimitExceeded)
    );

    let bytes = "x".repeat(MAX_ACTION_ARGUMENT_BYTES - "{\"v\":\"\"}".len());
    assert_eq!(
        validate_argument_limits(&json(&format!("{{\"v\":\"{bytes}\"}}"))),
        Ok(())
    );
    assert_eq!(
        validate_argument_limits(&json(&format!("{{\"v\":\"{bytes}x\"}}"))),
        Err(ActionRejectionReason::SecurityLimitExceeded)
    );
}

#[test]
fn arguments_have_at_most_so_many_nodes() {
    // The object and its arrays are nodes themselves; an array counts its elements too.
    let rows = |count: usize| {
        let row = "[0,0,0]";
        format!("{{\"rows\":[{}]}}", vec![row; count].join(","))
    };
    let nodes = |count: usize| 2 + 4 * count;
    let most = (1..40)
        .filter(|count| validate_argument_limits(&json(&rows(*count))).is_ok())
        .max()
        .expect("some arguments fit");
    assert!(nodes(most) <= MAX_ACTION_ARGUMENT_NODES);
    assert!(4 * (most + 1) > MAX_ACTION_ARGUMENT_ARRAY_ELEMENTS || nodes(most + 1) > MAX_ACTION_ARGUMENT_NODES);
}

#[test]
fn arguments_that_could_not_be_written_are_refused() {
    assert_eq!(
        check_arguments(&json(r#"{"a":1}"#), &None),
        Err(ActionRejectionReason::SecurityLimitExceeded)
    );
    let written = b"{\"a\":1}".to_vec();
    assert_eq!(check_arguments(&json(r#"{"a":1}"#), &Some(written)), Ok(()));
}

#[test]
fn colons_in_texts_are_not_keys() {
    let proposal = proposed(
        r#"{"action":{"tool":"lookup","arguments":{"a:b":"c:\"d\":","e":[":",{"f":":"}]}}}"#,
    );
    assert_eq!(
        proposal.arguments().as_value(),
        &json(r#"{"a:b":"c:\"d\":","e":[":",{"f":":"}]}"#)
    );
}

#[test]
fn escaped_spellings_of_one_key_are_duplicates() {
    assert_eq!(
        rejected(r#"{"action":{"tool":"lookup","arguments":{"key":1,"\u006bey":2}}}"#),
        ActionRejectionReason::MalformedEnvelope
    );
}

#[test]
fn an_envelope_is_opened_from_a_value() {
    match decode_envelope(&json(
        r#"{"action":{"tool":"lookup","arguments":{"value":2}}}"#,
    )) {
        Ok((tool, arguments)) => {
            assert_eq!(tool.as_str(), "lookup");
            assert_eq!(arguments, json(r#"{"value":2}"#));
        }
        Err(reason) => panic!("envelope must open: {reason:?}"),
    }
    assert!(matches!(
        decode_envelope(&json(r#"{"action":{"tool":"","arguments":{}}}"#)),
        Err(ActionRejectionReason::InvalidToolName)
    ));
    assert!(matches!(
        decode_parsed("{}", &None),
        Err(ActionRejectionReason::MalformedEnvelope)
    ));
}

#[test]
fn a_validated_action_is_its_proposal_with_the_tools_capability() {
    let registry = registry("lookup", json(r#"{"type": "object"}"#));
    let action = match validated(
        proposed(r#"{"action":{"tool":"lookup","arguments":{"value":2}}}"#),
        &registry,
    ) {
        Ok(action) => action,
        Err(reason) => panic!("action must be valid: {reason:?}"),
    };
    assert_eq!(action.proposal_id(), ActionProposalId(1));
    assert_eq!(action.tool_name().as_str(), "lookup");
    assert_eq!(action.capability(), CapabilityKind::ReadOnly);
    assert_eq!(action.arguments().as_value(), &json(r#"{"value":2}"#));
    let call = action.into_tool_call(ToolCallId(7));
    assert_eq!(call.id, ToolCallId(7));
    assert_eq!(call.tool_name.as_str(), "lookup");
    assert_eq!(call.arguments.as_value(), &json(r#"{"value":2}"#));
}

#[test]
fn a_digest_tells_actions_apart() {
    let registry = registry("lookup", json(r#"{"type": "object"}"#));
    let digest = |text: &str| match validated(proposed(text), &registry) {
        Ok(action) => action.digest(),
        Err(reason) => panic!("action must be valid: {reason:?}"),
    };
    let first = digest(r#"{"action":{"tool":"lookup","arguments":{"value":1}}}"#);
    assert_eq!(
        first,
        digest(r#"{ "action": {"arguments": {"value": 1}, "tool": "lookup"}}"#)
    );
    assert_ne!(
        first,
        digest(r#"{"action":{"tool":"lookup","arguments":{"value":2}}}"#)
    );
}

#[test]
fn a_schema_must_be_an_object_and_a_description_must_say_something() {
    assert!(matches!(
        ToolSchema::new(json("[]")),
        Err(ToolDefinitionError::SchemaNotAnObject)
    ));
    let schema = match ToolSchema::new(json("{}")) {
        Ok(schema) => schema,
        Err(_) => panic!("schema is an object"),
    };
    assert!(matches!(
        ToolDefinition::new(
            name("lookup"),
            " \n".to_owned(),
            CapabilityKind::ReadOnly,
            schema,
        ),
        Err(ToolDefinitionError::EmptyDescription)
    ));
}

#[test]
fn a_schema_that_does_not_compile_is_refused() {
    assert!(matches!(
        compile_tool_schema(&json(r#"{"type": "object", "required": "count"}"#)),
        Err(ToolSchemaRegistrationError::UnsupportedProfile
            | ToolSchemaRegistrationError::CompilationFailed)
    ));
    assert!(compile_tool_schema(&json(r#"{"type": "object"}"#)).is_ok());
}
