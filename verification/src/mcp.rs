//! The MCP adapter that packs are built against.

use crate::text::str_eq;
use vstd::prelude::*;

verus! {

/// An MCP adapter: its protocol, its image and the digest of the image.
#[derive(Debug, Clone)]
pub struct McpAdapterRef {
    pub protocol: &'static str,
    pub image: &'static str,
    pub digest: Option<&'static str>,
}

/// Pinned MCP adapter reference for protocol 25.06.18.
pub fn mcp_adapter_25_06_18() -> (adapter: McpAdapterRef)
    ensures
        adapter.protocol@ == "25.06.18"@,
        adapter.image@ == "ghcr.io/greentic-ai/greentic-mcp-adapter:25.06.18-v0.4.4"@,
        adapter.digest is None,
{
    McpAdapterRef {
        protocol: "25.06.18",
        image: "ghcr.io/greentic-ai/greentic-mcp-adapter:25.06.18-v0.4.4",
        digest: None,
    }
}

/// Why no adapter is at hand.
#[derive(Debug, Clone, Copy, PartialEq, Eq)]
pub enum AdapterError {
    /// The protocol is not the pinned one.
    UnsupportedProtocol,
    /// The vendored adapter is not where it belongs.
    VendoredMissing,
}

/// The path of the vendored adapter below the package directory, given
/// whether the file is there.
pub fn vendored_adapter_path(present: bool) -> (out: Result<String, AdapterError>)
    ensures
        present ==> out is Ok && out->Ok_0@ == "assets/mcp_adapter_25_06_18.component.wasm"@,
        !present ==> out == Err::<String, _>(AdapterError::VendoredMissing),
{
    if present {
        Ok("assets/mcp_adapter_25_06_18.component.wasm".to_owned())
    } else {
        Err(AdapterError::VendoredMissing)
    }
}

/// Return the local adapter path for the given reference: that of the
/// vendored adapter, for the pinned protocol only. `vendored_present` says
/// whether the vendored file is there.
pub fn ensure_adapter_local(adapter: &McpAdapterRef, vendored_present: bool) -> (out: Result<
    String,
    AdapterError,
>)
    ensures
        adapter.protocol@ != "25.06.18"@ ==> out == Err::<String, _>(
            AdapterError::UnsupportedProtocol,
        ),
        adapter.protocol@ == "25.06.18"@ && !vendored_present ==> out == Err::<String, _>(
            AdapterError::VendoredMissing,
        ),
        adapter.protocol@ == "25.06.18"@ && vendored_present ==> out is Ok && out->Ok_0@
            == "assets/mcp_adapter_25_06_18.component.wasm"@,
{
    let pinned = mcp_adapter_25_06_18();
    if str_eq(adapter.protocol, pinned.protocol) {
        vendored_adapter_path(vendored_present)
    } else {
        Err(AdapterError::UnsupportedProtocol)
    }
}

} // verus!
