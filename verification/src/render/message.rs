//! The names the renderer logs its messages by.
use vstd::prelude::*;

verus! {

/// The kinds of message the renderer receives, with what their names
/// show: whether a proxy is enabled, and the messages of a batch.
#[derive(Debug)]
pub enum RenderMsgKind {
    RegisterProxy,
    RegisterLightProxy,
    RemoveProxy,
    UpdateTransform,
    ProxyUpdate,
    LightProxyUpdate,
    UpdateActiveCamera,
    ProxyState(bool),
    PickRequest,
    CommandBatch(Vec<RenderMsgKind>),
    CaptureOffscreenTextures,
    CapturePickingTexture,
    CaptureTexture,
    SetGBufferDebug,
    SetSkybox,
    SetSkyboxMode,
    SetSkyAtmosphere,
    UpdateStrobe,
    FrameEnd,
}

/// The text of a `bool`.
pub open spec fn bool_text(b: bool) -> Seq<char> {
    if b {
        "true"@
    } else {
        "false"@
    }
}

/// The names of the messages of a batch, separated by `, `.
pub open spec fn batch_names(msgs: Seq<RenderMsgKind>) -> Seq<char>
    decreases msgs,
{
    if msgs.len() == 0 {
        seq![]
    } else if msgs.len() == 1 {
        msg_name(msgs[0])
    } else {
        batch_names(msgs.drop_last()) + ", "@ + msg_name(msgs.last())
    }
}

/// The name of a message.
pub open spec fn msg_name(m: RenderMsgKind) -> Seq<char>
    decreases m,
{
    match m {
        RenderMsgKind::RegisterProxy => "Register Proxy"@,
        RenderMsgKind::RegisterLightProxy => "Register Light Proxy"@,
        RenderMsgKind::RemoveProxy => "Remove Proxy"@,
        RenderMsgKind::UpdateTransform => "Update Transform"@,
        RenderMsgKind::ProxyUpdate => "Proxy Update"@,
        RenderMsgKind::LightProxyUpdate => "Light Proxy Update"@,
        RenderMsgKind::UpdateActiveCamera => "Update Active Camera"@,
        RenderMsgKind::ProxyState(enable) => "Proxy Enabled: "@ + bool_text(enable),
        RenderMsgKind::PickRequest => "Pick Request"@,
        RenderMsgKind::CommandBatch(inner) => "Command Batch "@ + "["@ + batch_names(inner@) + "]"@,
        RenderMsgKind::CaptureOffscreenTextures => "Capture Offscreen Texture"@,
        RenderMsgKind::CapturePickingTexture => "Capture Picking Texture"@,
        RenderMsgKind::CaptureTexture => "Capture Texture"@,
        RenderMsgKind::SetGBufferDebug => "Set GBuffer Debug"@,
        RenderMsgKind::SetSkybox => "Set Skybox"@,
        RenderMsgKind::SetSkyboxMode => "Set Skybox Mode"@,
        RenderMsgKind::SetSkyAtmosphere => "Set Sky Atmosphere"@,
        RenderMsgKind::UpdateStrobe => "Update Strobe Draw List"@,
        RenderMsgKind::FrameEnd => "Frame End"@,
    }
}

impl RenderMsgKind {
    /// The name the message is logged by (see [`msg_name`]).
    pub fn name(&self) -> (r: String)
        ensures
            r@ == msg_name(*self),
        decreases self,
    {
        proof {
            reveal_strlit("Register Proxy");
            reveal_strlit("Register Light Proxy");
            reveal_strlit("Remove Proxy");
            reveal_strlit("Update Transform");
            reveal_strlit("Proxy Update");
            reveal_strlit("Light Proxy Update");
            reveal_strlit("Update Active Camera");
            reveal_strlit("Pick Request");
            reveal_strlit("Capture Offscreen Texture");
            reveal_strlit("Capture Picking Texture");
            reveal_strlit("Capture Texture");
            reveal_strlit("Set GBuffer Debug");
            reveal_strlit("Set Skybox");
            reveal_strlit("Set Skybox Mode");
            reveal_strlit("Set Sky Atmosphere");
            reveal_strlit("Update Strobe Draw List");
            reveal_strlit("Frame End");
            reveal_strlit("Proxy Enabled: ");
            reveal_strlit("Command Batch ");
            reveal_strlit("[");
            reveal_strlit("]");
            reveal_strlit(", ");
            reveal_strlit("true");
            reveal_strlit("false");
        }
        let mut out = String::new();
        match self {
            RenderMsgKind::RegisterProxy => out.append("Register Proxy"),
            RenderMsgKind::RegisterLightProxy => out.append("Register Light Proxy"),
            RenderMsgKind::RemoveProxy => out.append("Remove Proxy"),
            RenderMsgKind::UpdateTransform => out.append("Update Transform"),
            RenderMsgKind::ProxyUpdate => out.append("Proxy Update"),
            RenderMsgKind::LightProxyUpdate => out.append("Light Proxy Update"),
            RenderMsgKind::UpdateActiveCamera => out.append("Update Active Camera"),
            RenderMsgKind::PickRequest => out.append("Pick Request"),
            RenderMsgKind::CaptureOffscreenTextures => out.append("Capture Offscreen Texture"),
            RenderMsgKind::CapturePickingTexture => out.append("Capture Picking Texture"),
            RenderMsgKind::CaptureTexture => out.append("Capture Texture"),
            RenderMsgKind::SetGBufferDebug => out.append("Set GBuffer Debug"),
            RenderMsgKind::SetSkybox => out.append("Set Skybox"),
            RenderMsgKind::SetSkyboxMode => out.append("Set Skybox Mode"),
            RenderMsgKind::SetSkyAtmosphere => out.append("Set Sky Atmosphere"),
            RenderMsgKind::UpdateStrobe => out.append("Update Strobe Draw List"),
            RenderMsgKind::FrameEnd => out.append("Frame End"),
            RenderMsgKind::ProxyState(enable) => {
                out.append("Proxy Enabled: ");
                if *enable {
                    out.append("true");
                } else {
                    out.append("false");
                }
            },
            RenderMsgKind::CommandBatch(inner) => {
                out.append("Command Batch ");
                out.append("[");
                let mut i: usize = 0;
                while i < inner.len()
                    invariant
                        *self is CommandBatch,
                        self->CommandBatch_0 == *inner,
                        i <= inner@.len(),
                        out@ == "Command Batch "@ + "["@ + batch_names(inner@.take(i as int)),
                    decreases inner@.len() - i,
                {
                    proof {
                        assert(inner@.take(i + 1).drop_last() =~= inner@.take(i as int));
                        if i == 0 {
                            assert(inner@.take(1)[0] == inner@[0]);
                        }
                    }
                    if i > 0 {
                        out.append(", ");
                    }
                    let item = &inner[i];
                    assert(decreases_to!(self => inner@[i as int])) by {
                        assert(*inner == self->CommandBatch_0);
                        assert(decreases_to!(*self => self->CommandBatch_0));
                        assert(decreases_to!(*inner => inner@));
                        assert(decreases_to!(inner@ => inner@[i as int]));
                    }
                    let name = item.name();
                    out.append(name.as_str());
                    i += 1;
                }
                assert(inner@.take(inner@.len() as int) =~= inner@);
                out.append("]");
            },
        }
        out
    }
}

} // verus!
