use vstd::prelude::*;

verus! {

#[derive(Debug, Clone, Copy, PartialEq, Eq, Structural)]
pub struct ToolsCapability {
    pub list_changed: Option<bool>,
}

#[derive(Debug, Clone, Copy, PartialEq, Eq, Structural)]
pub struct PromptsCapability {
    pub list_changed: Option<bool>,
}

#[derive(Debug, Clone, Copy, PartialEq, Eq, Structural)]
pub struct ResourcesCapability {
    pub subscribe: Option<bool>,
    pub list_changed: Option<bool>,
}

/// The features that a server announces.
#[derive(Debug, Clone, Copy, PartialEq, Eq, Structural)]
pub struct ServerCapabilities {
    pub tools: Option<ToolsCapability>,
    pub prompts: Option<PromptsCapability>,
    pub resources: Option<ResourcesCapability>,
}

/// Collects the capabilities of a server one feature at a time.
pub struct CapabilitiesBuilder {
    tools: Option<ToolsCapability>,
    prompts: Option<PromptsCapability>,
    resources: Option<ResourcesCapability>,
}

impl View for CapabilitiesBuilder {
    type V = ServerCapabilities;

    closed spec fn view(&self) -> ServerCapabilities {
        ServerCapabilities { tools: self.tools, prompts: self.prompts, resources: self.resources }
    }
}

impl Default for CapabilitiesBuilder {
    fn default() -> (r: Self)
        ensures
            r@ == (ServerCapabilities { tools: None, prompts: None, resources: None }),
    {
        Self::new()
    }
}

impl CapabilitiesBuilder {
    pub fn new() -> (r: Self)
        ensures
            r@ == (ServerCapabilities { tools: None, prompts: None, resources: None }),
    {
        CapabilitiesBuilder { tools: None, prompts: None, resources: None }
    }

    /// Enables tools.
    pub fn with_tools(self, list_changed: bool) -> (r: Self)
        ensures
            r@ == (ServerCapabilities {
                tools: Some(ToolsCapability { list_changed: Some(list_changed) }),
                ..self@
            }),
    {
        CapabilitiesBuilder { tools: Some(ToolsCapability { list_changed: Some(list_changed) }), ..self }
    }

    /// Enables prompts.
    pub fn with_prompts(self, list_changed: bool) -> (r: Self)
        ensures
            r@ == (ServerCapabilities {
                prompts: Some(PromptsCapability { list_changed: Some(list_changed) }),
                ..self@
            }),
    {
        CapabilitiesBuilder { prompts: Some(PromptsCapability { list_changed: Some(list_changed) }), ..self }
    }

    /// Enables resources.
    pub fn with_resources(self, subscribe: bool, list_changed: bool) -> (r: Self)
        ensures
            r@ == (ServerCapabilities {
                resources: Some(
                    ResourcesCapability { subscribe: Some(subscribe), list_changed: Some(list_changed) },
                ),
                ..self@
            }),
    {
        CapabilitiesBuilder {
            resources: Some(ResourcesCapability { subscribe: Some(subscribe), list_changed: Some(list_changed) }),
            ..self
        }
    }

    /// The capabilities as configured.
    pub fn build(self) -> (r: ServerCapabilities)
        ensures
            r == self@,
    {
        ServerCapabilities { tools: self.tools, prompts: self.prompts, resources: self.resources }
    }
}

} // verus!
