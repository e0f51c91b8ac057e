use rmcp::handler::{PromptRoute, PromptRouter};
use rmcp::macros::{
    prompt_handler_items, resolve_prompt_attribute, routed_functions, router_fn_name, HandlerItem, ImplItemShape,
};
use rmcp::mcp_core::prompt::Prompt;

fn handler_items_for(names: &[Option<&str>]) -> Vec<HandlerItem> {
    let items: Vec<Option<String>> = names.iter().map(|n| n.map(|s| s.to_string())).collect();
    prompt_handler_items(&items)
}

#[test]
fn test_prompt_handler_basic() {
    let router: PromptRouter<()> = PromptRouter::new();
    assert_eq!(handler_items_for(&[]), vec![HandlerItem::GetPrompt, HandlerItem::ListPrompts]);
    assert_eq!(router.list_all().len(), 0);
}

#[test]
fn test_prompt_handler_custom_router() {
    let custom_router: PromptRouter<()> = PromptRouter::new();
    assert_eq!(router_fn_name(Some("custom_router".to_string()), "prompt"), "custom_router");
    assert_eq!(custom_router.list_all().len(), 0);
}

#[test]
fn test_prompt_handler_with_generics() {
    let server: PromptRouter<String> = PromptRouter::new();
    let server2: PromptRouter<i32> = PromptRouter::new();
    assert_eq!(server.list_all().len(), 0);
    assert_eq!(server2.list_all().len(), 0);
}

#[test]
fn test_nested_prompt_handler() {
    let router: PromptRouter<()> = PromptRouter::new();
    assert_eq!(handler_items_for(&[None]), vec![HandlerItem::Kept(0), HandlerItem::GetPrompt, HandlerItem::ListPrompts]);
    assert_eq!(router.list_all().len(), 0);
}

#[test]
fn existing_handler_methods_are_replaced_in_place() {
    assert_eq!(
        handler_items_for(&[Some("list_prompts"), Some("other"), Some("get_prompt")]),
        vec![HandlerItem::ListPrompts, HandlerItem::Kept(1), HandlerItem::GetPrompt]
    );
    assert_eq!(
        handler_items_for(&[Some("get_prompt")]),
        vec![HandlerItem::GetPrompt, HandlerItem::ListPrompts]
    );
}

#[test]
fn router_routes_marked_functions_in_order() {
    let items = vec![
        ImplItemShape::Fn { name: "a".to_string(), attrs: vec!["prompt".to_string()] },
        ImplItemShape::Other,
        ImplItemShape::Fn { name: "b".to_string(), attrs: vec!["doc".to_string()] },
        ImplItemShape::Fn { name: "c".to_string(), attrs: vec!["doc".to_string(), "prompt".to_string()] },
    ];
    assert_eq!(routed_functions(&items, "prompt"), vec!["a".to_string(), "c".to_string()]);
    assert_eq!(routed_functions(&items, "tool"), Vec::<String>::new());
    assert_eq!(router_fn_name(None, "prompt"), "prompt_router");
    assert_eq!(router_fn_name(None, "tool"), "tool_router");
}

#[test]
fn router_lists_one_prompt_per_name() {
    let p = |n: &str| Prompt::new(n, None, None);
    let router = PromptRouter::new()
        .with_route(PromptRoute { attr: p("a"), handler: 1 })
        .with_route(PromptRoute { attr: p("b"), handler: 2 })
        .with_route(PromptRoute { attr: p("a"), handler: 3 });
    let names: Vec<String> = router.list_all().into_iter().map(|p| p.name).collect();
    assert_eq!(names.len(), 2);
    assert!(names.contains(&"a".to_string()) && names.contains(&"b".to_string()));
    assert!(router.has_route("a"));
    let mut router = router;
    router.remove_route("a");
    assert!(!router.has_route("a"));
    assert_eq!(router.list_all().len(), 1);
}

#[test]
fn test_prompt_router() {

    let impl_items = vec![
        ImplItemShape::Fn { name: "async_method".to_string(), attrs: vec!["prompt".to_string()] },
        ImplItemShape::Fn { name: "sync_method".to_string(), attrs: vec!["prompt".to_string()] },
    ];
    let attr = |name: &str| resolve_prompt_attribute(name, None, None, &Vec::new(), None);
    let mut test_router: PromptRouter<&str> = PromptRouter::new();
    for name in routed_functions(&impl_items, "prompt") {
        test_router = test_router.with_route(PromptRoute { attr: attr(&name), handler: "method" });
    }
    let test_prompt_router = test_router
        .with_route(PromptRoute { attr: attr("async_function"), handler: "function" })
        .with_route(PromptRoute { attr: attr("async_function2"), handler: "function" });
    let prompts = test_prompt_router.list_all();
    assert_eq!(prompts.len(), 4);
}
