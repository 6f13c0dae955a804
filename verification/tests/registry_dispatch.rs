use ai_tools_ox::dispatch::CallDispatch;
use ai_tools_ox::dispatch::DispatchAction;
use ai_tools_ox::tools::Tool;
use ai_tools_ox::tools::ToolBuilder;
use ai_tools_ox::tools::ToolCall;
use ai_tools_ox::tools::ToolCallFunction;
use ai_tools_ox::tools::ToolCallResult;
use ai_tools_ox::tools::ToolType;
use ai_tools_ox::tools::Tools;
use ai_tools_ox::tools::ToolsResults;

fn simple_tool(name: &str, description: &str) -> Tool {
    ToolBuilder::new()
        .name(name)
        .description(description)
        .build()
        .unwrap()
}

fn request(id: &str, name: &str, arguments: &str) -> ToolCall {
    ToolCall {
        id: id.to_string(),
        tool_type: ToolType::Function,
        function: ToolCallFunction {
            name: name.to_string(),
            arguments: arguments.to_string(),
        },
    }
}

/// Drive a whole batch, answering every `Invoke` with a result that echoes
/// the tool's name and arguments, as a host's handlers would.
fn run_batch(registry: &Tools, calls: Vec<ToolCall>) -> ToolsResults {
    let mut dispatch = CallDispatch::new(calls);
    loop {
        match dispatch.step(registry) {
            DispatchAction::Done => break,
            DispatchAction::Resolved => {}
            DispatchAction::Invoke {
                id,
                name,
                arguments,
            } => {
                let answer = ToolCallResult {
                    tool_call_id: id,
                    content: format!("{} ran on {}", name, arguments),
                };
                dispatch.provide_result(registry, answer);
            }
        }
    }
    dispatch.into_results()
}

#[test]
fn registry_overwrites_same_name() {
    let first = simple_tool("dup", "the first registration");
    let second = ToolBuilder::new()
        .name("dup")
        .description("the second registration")
        .add_parameter::<bool>("flag", "a flag")
        .build()
        .unwrap();
    let registry = Tools::new().add_tool(first).add_tool(second);

    assert_eq!(registry.0.len(), 1);
    let got = registry.get_tool(&"dup".to_string()).unwrap();
    assert_eq!(got.function.description, "the second registration");
    assert_eq!(got.function.parameters.properties.len(), 1);

    let schemas = registry.schemas();
    assert_eq!(schemas.len(), 1);
    assert_eq!(schemas[0].function.name, "dup");
    assert_eq!(schemas[0].function.description, "the second registration");
}

#[test]
fn registry_keeps_distinct_names() {
    let registry = Tools::new()
        .add_tool(simple_tool("alpha", "first"))
        .add_tool(simple_tool("beta", "second"));
    assert_eq!(registry.0.len(), 2);
    assert_eq!(
        registry.get_tool(&"alpha".to_string()).unwrap().function.description,
        "first"
    );
    assert_eq!(
        registry.get_tool(&"beta".to_string()).unwrap().function.description,
        "second"
    );
    assert!(registry.get_tool(&"gamma".to_string()).is_none());
}

#[test]
fn dispatch_unknown_tool_answers_in_place() {
    let registry = Tools::new().add_tool(simple_tool("real", "exists"));
    let results = run_batch(
        &registry,
        vec![
            request("call-1", "missing", "{}"),
            request("call-2", "real", "{}"),
        ],
    );
    assert_eq!(results.0.len(), 2);
    assert_eq!(results.0[0].tool_call_id, "call-1");
    assert_eq!(results.0[0].content, "Tool not found");
    assert_eq!(results.0[1].tool_call_id, "call-2");
    assert_eq!(results.0[1].content, "real ran on {}");
}

#[test]
fn dispatch_keeps_request_order() {
    let registry = Tools::new()
        .add_tool(simple_tool("one", "d1"))
        .add_tool(simple_tool("two", "d2"))
        .add_tool(simple_tool("three", "d3"));
    let results = run_batch(
        &registry,
        vec![
            request("a", "three", "3"),
            request("b", "one", "1"),
            request("c", "two", "2"),
        ],
    );
    assert_eq!(results.0.len(), 3);
    assert_eq!(results.0[0].tool_call_id, "a");
    assert_eq!(results.0[0].content, "three ran on 3");
    assert_eq!(results.0[1].tool_call_id, "b");
    assert_eq!(results.0[1].content, "one ran on 1");
    assert_eq!(results.0[2].tool_call_id, "c");
    assert_eq!(results.0[2].content, "two ran on 2");
}

#[test]
fn dispatch_empty_batch() {
    let registry = Tools::new();
    let results = run_batch(&registry, Vec::new());
    assert!(results.0.is_empty());
}

#[test]
fn results_accumulate_in_order() {
    let mut results = ToolsResults::new();
    assert!(results.0.is_empty());
    results.add_result(ToolCallResult {
        tool_call_id: "r1".to_string(),
        content: "first".to_string(),
    });
    results.add_result(ToolCallResult {
        tool_call_id: "r2".to_string(),
        content: "second".to_string(),
    });
    assert_eq!(results.0.len(), 2);
    assert_eq!(results.0[0].content, "first");
    assert_eq!(results.0[1].content, "second");
}
