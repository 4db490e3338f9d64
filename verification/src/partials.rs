//! Partial templates of the site: under which name each is registered,
//! which template variable it fills, and when it is rendered.

use vstd::prelude::*;

verus! {

pub const PRIORITY_CRITICAL: u32 = 5;

pub const PRIORITY_HIGH: u32 = 10;

pub const PRIORITY_MID: u32 = 50;

pub const PRIORITY_LOW: u32 = 90;

pub const PRIORITY_LAST: u32 = 95;

/// How one partial template is registered.
pub struct Partial {
    /// Identifier of the component.
    pub component_id: &'static str,
    /// Template variable that the component fills.
    pub variable_name: &'static str,
    /// Name under which the template is embedded.
    pub template_name: &'static str,
    /// Components with a lower priority are rendered first.
    pub priority: u32,
}

impl Partial {
    /// Whether this partial is registered with the given names and priority.
    pub open spec fn is(
        &self,
        component_id: Seq<char>,
        variable_name: Seq<char>,
        template_name: Seq<char>,
        priority: u32,
    ) -> bool {
        &&& self.component_id@ == component_id
        &&& self.variable_name@ == variable_name
        &&& self.template_name@ == template_name
        &&& self.priority == priority
    }
}

/// Stylesheets and other assets of the page head.
pub struct HeadAssetsPartialRenderer;

impl HeadAssetsPartialRenderer {
    pub fn partial(&self) -> (p: Partial)
        ensures
            p.is("web:head-assets-partial"@, "HEAD_ASSETS"@, "head-assets"@, PRIORITY_CRITICAL),
    {
        Partial {
            component_id: "web:head-assets-partial",
            variable_name: "HEAD_ASSETS",
            template_name: "head-assets",
            priority: PRIORITY_CRITICAL,
        }
    }
}

/// The page header.
pub struct HeaderPartialRenderer;

impl HeaderPartialRenderer {
    pub fn partial(&self) -> (p: Partial)
        ensures
            p.is("web:header-partial"@, "HEADER"@, "header"@, PRIORITY_HIGH),
    {
        Partial {
            component_id: "web:header-partial",
            variable_name: "HEADER",
            template_name: "header",
            priority: PRIORITY_HIGH,
        }
    }
}

/// The page footer.
pub struct FooterPartialRenderer;

impl FooterPartialRenderer {
    pub fn partial(&self) -> (p: Partial)
        ensures
            p.is("web:footer-partial"@, "FOOTER"@, "footer"@, PRIORITY_LOW),
    {
        Partial {
            component_id: "web:footer-partial",
            variable_name: "FOOTER",
            template_name: "footer",
            priority: PRIORITY_LOW,
        }
    }
}

/// Scripts at the end of the page.
pub struct ScriptsPartialRenderer;

impl ScriptsPartialRenderer {
    pub fn partial(&self) -> (p: Partial)
        ensures
            p.is("web:scripts-partial"@, "SCRIPTS"@, "scripts"@, PRIORITY_LAST),
    {
        Partial {
            component_id: "web:scripts-partial",
            variable_name: "SCRIPTS",
            template_name: "scripts",
            priority: PRIORITY_LAST,
        }
    }
}

/// The remote command line animation.
pub struct CliRemoteAnimationPartialRenderer;

impl CliRemoteAnimationPartialRenderer {
    pub fn partial(&self) -> (p: Partial)
        ensures
            p.is("web:cli-remote-animation"@, "ANIMATION_CLI_REMOTE"@, "animation-cli-remote"@, PRIORITY_MID),
    {
        Partial {
            component_id: "web:cli-remote-animation",
            variable_name: "ANIMATION_CLI_REMOTE",
            template_name: "animation-cli-remote",
            priority: PRIORITY_MID,
        }
    }
}

/// The mesh animation.
pub struct RustMeshAnimationPartialRenderer;

impl RustMeshAnimationPartialRenderer {
    pub fn partial(&self) -> (p: Partial)
        ensures
            p.is("web:rust-mesh-animation"@, "RUST_MESH_ANIMATION"@, "rust-mesh-animation"@, PRIORITY_MID),
    {
        Partial {
            component_id: "web:rust-mesh-animation",
            variable_name: "RUST_MESH_ANIMATION",
            template_name: "rust-mesh-animation",
            priority: PRIORITY_MID,
        }
    }
}

/// The memory loop animation.
pub struct MemoryLoopAnimationPartialRenderer;

impl MemoryLoopAnimationPartialRenderer {
    pub fn partial(&self) -> (p: Partial)
        ensures
            p.is("web:memory-loop-animation"@, "ANIMATION_MEMORY_LOOP"@, "animation-memory-loop"@, PRIORITY_MID),
    {
        Partial {
            component_id: "web:memory-loop-animation",
            variable_name: "ANIMATION_MEMORY_LOOP",
            template_name: "animation-memory-loop",
            priority: PRIORITY_MID,
        }
    }
}

/// The agentic mesh animation.
pub struct AgenticMeshAnimationPartialRenderer;

impl AgenticMeshAnimationPartialRenderer {
    pub fn partial(&self) -> (p: Partial)
        ensures
            p.is("web:agentic-mesh-animation"@, "ANIMATION_AGENTIC_MESH"@, "animation-agentic-mesh"@, PRIORITY_MID),
    {
        Partial {
            component_id: "web:agentic-mesh-animation",
            variable_name: "ANIMATION_AGENTIC_MESH",
            template_name: "animation-agentic-mesh",
            priority: PRIORITY_MID,
        }
    }
}

} // verus!
