//! The engine plugins that the group knows, and the engine features that
//! switch the optional ones on.

use vstd::prelude::*;

verus! {

/// One engine plugin that the group can register.
#[derive(Clone, Copy, Debug, PartialEq, Eq, Structural, Hash)]
pub enum PluginKind {
    Core,
    Transform,
    Diagnostics,
    Input,
    Window,
    Asset,
    Scene,
    Render,
    Sprite,
    Pbr,
    Ui,
    Text,
    Audio,
    Gilrs,
    Gltf,
    Winit,
    Wgpu,
}

/// Which optional parts of the engine are built in. Each flag switches on
/// the plugin of the same name.
#[derive(Clone, Copy, Debug, PartialEq, Eq, Structural, Hash)]
pub struct EngineFeatures {
    pub render: bool,
    pub sprite: bool,
    pub pbr: bool,
    pub ui: bool,
    pub text: bool,
    pub audio: bool,
    pub gilrs: bool,
    pub gltf: bool,
    pub winit: bool,
    pub wgpu: bool,
}

/// What a window plugin is set to.
#[derive(Clone, Copy, Debug, PartialEq, Eq, Structural, Hash)]
pub struct WindowSettings {
    /// Whether the plugin asks for a primary window when it is built.
    pub add_primary_window: bool,
    /// Whether the program ends when the window is closed.
    pub exit_on_close: bool,
}

impl WindowSettings {
    /// The settings of a window plugin in its default value: both on.
    pub open spec fn standard() -> WindowSettings {
        WindowSettings { add_primary_window: true, exit_on_close: true }
    }
}

impl PluginKind {
    /// The place of the plugin in the registration order: a plugin with a
    /// lower rank is registered before one with a higher rank.
    pub open spec fn rank(self) -> nat {
        match self {
            PluginKind::Core => 0,
            PluginKind::Transform => 1,
            PluginKind::Diagnostics => 2,
            PluginKind::Input => 3,
            PluginKind::Window => 4,
            PluginKind::Asset => 5,
            PluginKind::Scene => 6,
            PluginKind::Render => 7,
            PluginKind::Sprite => 8,
            PluginKind::Pbr => 9,
            PluginKind::Ui => 10,
            PluginKind::Text => 11,
            PluginKind::Audio => 12,
            PluginKind::Gilrs => 13,
            PluginKind::Gltf => 14,
            PluginKind::Winit => 15,
            PluginKind::Wgpu => 16,
        }
    }

    /// A base plugin is registered whatever the engine features are.
    pub open spec fn is_base(self) -> bool {
        match self {
            PluginKind::Core
            | PluginKind::Transform
            | PluginKind::Diagnostics
            | PluginKind::Input
            | PluginKind::Window
            | PluginKind::Asset
            | PluginKind::Scene => true,
            _ => false,
        }
    }
}

impl EngineFeatures {
    /// How many of the features are on.
    pub open spec fn count(self) -> nat {
        let one = |flag: bool| -> int { if flag { 1 } else { 0 } };
        (one(self.render) + one(self.sprite) + one(self.pbr) + one(self.ui) + one(self.text)
            + one(self.audio) + one(self.gilrs) + one(self.gltf) + one(self.winit)
            + one(self.wgpu)) as nat
    }

    /// Whether these features call for the plugin `kind`: always for a base
    /// plugin, and for an optional one exactly when its flag is set.
    pub open spec fn enables(self, kind: PluginKind) -> bool {
        match kind {
            PluginKind::Render => self.render,
            PluginKind::Sprite => self.sprite,
            PluginKind::Pbr => self.pbr,
            PluginKind::Ui => self.ui,
            PluginKind::Text => self.text,
            PluginKind::Audio => self.audio,
            PluginKind::Gilrs => self.gilrs,
            PluginKind::Gltf => self.gltf,
            PluginKind::Winit => self.winit,
            PluginKind::Wgpu => self.wgpu,
            _ => true,
        }
    }

    /// Looks up whether the plugin `kind` is called for.
    pub fn is_enabled(&self, kind: PluginKind) -> (b: bool)
        ensures
            b == self.enables(kind),
    {
        match kind {
            PluginKind::Render => self.render,
            PluginKind::Sprite => self.sprite,
            PluginKind::Pbr => self.pbr,
            PluginKind::Ui => self.ui,
            PluginKind::Text => self.text,
            PluginKind::Audio => self.audio,
            PluginKind::Gilrs => self.gilrs,
            PluginKind::Gltf => self.gltf,
            PluginKind::Winit => self.winit,
            PluginKind::Wgpu => self.wgpu,
            _ => true,
        }
    }
}

} // verus!
