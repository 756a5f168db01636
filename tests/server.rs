use mcp_sse::capabilities::{
    CapabilitiesBuilder, PromptsCapability, ResourcesCapability, ServerCapabilities, ToolsCapability,
};
use mcp_sse::role::Role;
use mcp_sse::router::ChartRouter;

#[test]
fn role_names() {
    assert_eq!(Role::all(), vec![Role::User, Role::Assistant]);
    assert_eq!(Role::user().get_name(), "user");
    assert_eq!(Role::assistant().get_name(), "assistant");
    assert_eq!(Role::default(), Role::User);
}

#[test]
fn empty_builder() {
    let c = CapabilitiesBuilder::new().build();
    assert_eq!(c, ServerCapabilities { tools: None, prompts: None, resources: None });
}

#[test]
fn builder_sets_each_feature() {
    let c = CapabilitiesBuilder::new().with_tools(true).with_prompts(false).with_resources(true, false).build();
    assert_eq!(c.tools, Some(ToolsCapability { list_changed: Some(true) }));
    assert_eq!(c.prompts, Some(PromptsCapability { list_changed: Some(false) }));
    assert_eq!(c.resources, Some(ResourcesCapability { subscribe: Some(true), list_changed: Some(false) }));
}

#[test]
fn chart_router_capabilities() {
    let r = ChartRouter::new();
    assert_eq!(r.name(), "chart");
    let c = r.capabilities();
    assert_eq!(c.tools, Some(ToolsCapability { list_changed: Some(false) }));
    assert_eq!(c.prompts, Some(PromptsCapability { list_changed: Some(false) }));
    assert_eq!(c.resources, Some(ResourcesCapability { subscribe: Some(false), list_changed: Some(false) }));
}
