//! The plugin group and the order in which it registers plugins.

use vstd::prelude::*;
use bevy::app::PluginGroupBuilder;
use crate::group::{
    add_asset, add_core, add_diagnostics, add_input, add_scene, add_transform, add_window,
    empty_group, enabled, listed, window_settings,
};
use crate::kind::{EngineFeatures, PluginKind, WindowSettings};
use crate::order::{
    base_plugins, enabled_by, entries, flags_after_base, lemma_plugin_order_len, optional_order,
    optional_plugins, plugin_order,
};

verus! {

/// The plugin group of the scene viewer.
pub struct TestDefaultPlugins;

impl TestDefaultPlugins {
    /// Registers the base plugins with `group`, each in its default value
    /// and enabled, after whatever the group holds, and hands back the
    /// optional plugins that `features` switch on, which are to be added
    /// after them in the order given. The group then stands for
    /// `plugin_order(features)`.
    pub fn build(&mut self, group: &mut PluginGroupBuilder, features: &EngineFeatures) -> (rest:
        Vec<PluginKind>)
        ensures
            listed(*final(group)) == listed(*old(group)) + entries(base_plugins()),
            enabled(*final(group)) == flags_after_base(listed(*old(group)), enabled(*old(group))),
            window_settings(*final(group)) == Some(WindowSettings::standard()),
            rest@ == optional_plugins(*features),
            rest@.len() == features.count(),
            base_plugins() + rest@ == plugin_order(*features),
    {
        add_core(group);
        add_transform(group);
        add_diagnostics(group);
        add_input(group);
        add_window(group);
        add_asset(group);
        add_scene(group);
        proof {
            lemma_plugin_order_len(*features);
        }
        self.optional(features)
    }

    /// Makes a group of its own for the plugins: a new builder, filled by
    /// `build`. It holds the seven base plugins and nothing else.
    pub fn new_group(&mut self, features: &EngineFeatures) -> (out: (
        PluginGroupBuilder,
        Vec<PluginKind>,
    ))
        ensures
            listed(out.0) == entries(base_plugins()),
            enabled(out.0) == Seq::new(7, |i: int| true),
            window_settings(out.0) == Some(WindowSettings::standard()),
            out.1@ == optional_plugins(*features),
            out.1@.len() == features.count(),
            base_plugins() + out.1@ == plugin_order(*features),
    {
        let mut group = empty_group();
        let rest = self.build(&mut group, features);
        (group, rest)
    }

    /// Lists the optional plugins that `features` switch on, in the order in
    /// which they are to be registered after the base plugins.
    pub fn optional(&self, features: &EngineFeatures) -> (plugins: Vec<PluginKind>)
        ensures
            plugins@ == optional_plugins(*features),
            plugins@.len() == features.count(),
    {
        let order = [
            PluginKind::Render,
            PluginKind::Sprite,
            PluginKind::Pbr,
            PluginKind::Ui,
            PluginKind::Text,
            PluginKind::Audio,
            PluginKind::Gilrs,
            PluginKind::Gltf,
            PluginKind::Winit,
            PluginKind::Wgpu,
        ];
        assert(order@ =~= optional_order());
        let mut plugins: Vec<PluginKind> = Vec::new();
        let mut i: usize = 0;
        while i < 10
            invariant
                i <= 10,
                order@ == optional_order(),
                plugins@ == optional_order().take(i as int).filter(enabled_by(*features)),
            decreases 10 - i,
        {
            let kind = order[i];
            proof {
                let seen = optional_order().take(i as int);
                assert(optional_order().take(i + 1) =~= seen.push(kind));
                seen.lemma_filter_push(kind, enabled_by(*features));
            }
            if features.is_enabled(kind) {
                plugins.push(kind);
            }
            i += 1;
        }
        assert(optional_order().take(10) =~= optional_order());
        proof {
            lemma_plugin_order_len(*features);
        }
        plugins
    }
}

} // verus!
