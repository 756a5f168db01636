use crate::capabilities::{CapabilitiesBuilder, PromptsCapability, ResourcesCapability, ServerCapabilities, ToolsCapability};
use vstd::prelude::*;

verus! {

/// A server that offers one tool, `generate_chart`.
#[derive(Debug, Clone, Copy)]
pub struct ChartRouter;

impl ChartRouter {
    pub fn new() -> (r: Self) {
        ChartRouter
    }

    pub fn name(&self) -> (r: String)
        ensures
            r@ == seq!['c', 'h', 'a', 'r', 't'],
    {
        proof {
            reveal_strlit("chart");
        }
        "chart".to_owned()
    }

    /// Tools without change notices, resources without subscriptions or
    /// change notices, and prompts without change notices.
    pub fn capabilities(&self) -> (r: ServerCapabilities)
        ensures
            r == (ServerCapabilities {
                tools: Some(ToolsCapability { list_changed: Some(false) }),
                prompts: Some(PromptsCapability { list_changed: Some(false) }),
                resources: Some(ResourcesCapability { subscribe: Some(false), list_changed: Some(false) }),
            }),
    {
        CapabilitiesBuilder::new().with_tools(false).with_resources(false, false).with_prompts(false).build()
    }
}

} // verus!
