use rmcp::handler::{ToolRoute, ToolRouter};
use rmcp::macros::{resolve_tool_attribute, ToolAttribute};

fn route(name: &str, handler: &'static str) -> ToolRoute<&'static str> {
    ToolRoute { attr: resolve_tool_attribute(ToolAttribute::default(), name, &Vec::new(), &Vec::new(), None), handler }
}

fn test_router_1() -> ToolRouter<&'static str> {
    ToolRouter::new().with_route(route("async_method", "method"))
}

fn test_router_2() -> ToolRouter<&'static str> {
    ToolRouter::new().with_route(route("sync_method", "method"))
}

#[test]
fn test_tool_router() {
    let test_tool_router: ToolRouter<&'static str> = ToolRouter::new()
        .with_route(route("async_function", "function"))
        .with_route(route("async_function2", "function"))
        .merge(test_router_1())
        .merge(test_router_2());
    let tools = test_tool_router.list_all();
    assert_eq!(tools.len(), 4);
}

#[test]
fn merge_replaces_routes_of_the_same_name() {
    let merged = ToolRouter::new()
        .with_route(route("echo", "first"))
        .with_route(route("sum", "first"))
        .merge(ToolRouter::new().with_route(route("echo", "second")));
    assert_eq!(merged.list_all().len(), 2);
    assert!(merged.has_route("echo"));
    assert!(merged.has_route("sum"));
    assert!(!merged.has_route("other"));
    let echo = merged.routes.entries.iter().find(|(k, _)| k == "echo").unwrap();
    assert_eq!(echo.1.handler, "second");
    assert!(!merged.transparent_when_not_found);
}
