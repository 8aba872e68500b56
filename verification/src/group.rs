//! The engine's plugin group builder, as far as the group fills it.
//!
//! Nothing in this file is proved. The three names say what a builder holds,
//! and each contract restates what the engine's `PluginGroupBuilder::add` or
//! `PluginGroupBuilder::default` does to it: `add` puts the plugin's type at
//! the end of the builder's list and stores the plugin, enabled, under that
//! type, in place of what was stored under it.

use vstd::prelude::*;
use bevy::app::PluginGroupBuilder;
use crate::kind::{PluginKind, WindowSettings};

verus! {

/// The engine's `PluginGroupBuilder`, carried through as an opaque value.
#[verifier::external_type_specification]
#[verifier::external_body]
pub struct ExPluginGroupBuilder(bevy::app::PluginGroupBuilder);

/// The list of `group`, entry by entry and in its order, which is the order
/// in which the builder goes through its plugins when it is finished. An
/// entry is `Some` of its kind where the plugin is one of `PluginKind`, and
/// `None` for any other plugin. A plugin stands in the list whether it is
/// enabled or not, and as often as it was added.
pub uninterp spec fn listed(group: PluginGroupBuilder) -> Seq<Option<PluginKind>>;

/// One flag for each entry of the list of `group`: whether the builder, when
/// it is finished, builds the plugin that it holds for that entry. Entries of
/// one plugin type share what the builder holds for the type, and so their
/// flag.
pub uninterp spec fn enabled(group: PluginGroupBuilder) -> Seq<bool>;

/// The settings of the window plugin that `group` holds, or `None` where it
/// holds no window plugin.
pub uninterp spec fn window_settings(group: PluginGroupBuilder) -> Option<WindowSettings>;

/// The flags of a builder after a plugin of `kind` was added to one with the
/// entries `list` and the flags `flags`: the new entry is enabled, and so is
/// every earlier entry of that kind, whose plugin the new one replaces; the
/// other flags stay.
pub open spec fn flags_after_add(
    list: Seq<Option<PluginKind>>,
    flags: Seq<bool>,
    kind: PluginKind,
) -> Seq<bool> {
    Seq::new(list.len() + 1, |i: int| i == list.len() || list[i] == Some(kind) || flags[i])
}

/// `PluginGroupBuilder::default`: a builder with an empty list that holds no
/// plugin.
#[verifier::external_body]
pub(crate) fn empty_group() -> (group: PluginGroupBuilder)
    ensures
        listed(group) == Seq::<Option<PluginKind>>::empty(),
        enabled(group) == Seq::<bool>::empty(),
        window_settings(group) == None::<WindowSettings>,
{
    PluginGroupBuilder::default()
}

/// `PluginGroupBuilder::add` with a `CorePlugin` in its default value: a new entry
/// at the end of the list, enabled; the entries before it stay, and the
/// window settings are untouched.
#[verifier::external_body]
pub(crate) fn add_core(group: &mut PluginGroupBuilder)
    ensures
        listed(*final(group)) == listed(*old(group)).push(Some(PluginKind::Core)),
        enabled(*final(group)) == flags_after_add(
            listed(*old(group)),
            enabled(*old(group)),
            PluginKind::Core,
        ),
        window_settings(*final(group)) == window_settings(*old(group)),
{
    group.add(bevy::core::CorePlugin::default());
}

/// `PluginGroupBuilder::add` with a `TransformPlugin` in its default value: a new entry
/// at the end of the list, enabled; the entries before it stay, and the
/// window settings are untouched.
#[verifier::external_body]
pub(crate) fn add_transform(group: &mut PluginGroupBuilder)
    ensures
        listed(*final(group)) == listed(*old(group)).push(Some(PluginKind::Transform)),
        enabled(*final(group)) == flags_after_add(
            listed(*old(group)),
            enabled(*old(group)),
            PluginKind::Transform,
        ),
        window_settings(*final(group)) == window_settings(*old(group)),
{
    group.add(bevy::transform::TransformPlugin::default());
}

/// `PluginGroupBuilder::add` with a `DiagnosticsPlugin` in its default value: a new entry
/// at the end of the list, enabled; the entries before it stay, and the
/// window settings are untouched.
#[verifier::external_body]
pub(crate) fn add_diagnostics(group: &mut PluginGroupBuilder)
    ensures
        listed(*final(group)) == listed(*old(group)).push(Some(PluginKind::Diagnostics)),
        enabled(*final(group)) == flags_after_add(
            listed(*old(group)),
            enabled(*old(group)),
            PluginKind::Diagnostics,
        ),
        window_settings(*final(group)) == window_settings(*old(group)),
{
    group.add(bevy::diagnostic::DiagnosticsPlugin::default());
}

/// `PluginGroupBuilder::add` with an `InputPlugin` in its default value: a new entry
/// at the end of the list, enabled; the entries before it stay, and the
/// window settings are untouched.
#[verifier::external_body]
pub(crate) fn add_input(group: &mut PluginGroupBuilder)
    ensures
        listed(*final(group)) == listed(*old(group)).push(Some(PluginKind::Input)),
        enabled(*final(group)) == flags_after_add(
            listed(*old(group)),
            enabled(*old(group)),
            PluginKind::Input,
        ),
        window_settings(*final(group)) == window_settings(*old(group)),
{
    group.add(bevy::input::InputPlugin::default());
}

/// `PluginGroupBuilder::add` with a `WindowPlugin` in its default value,
/// which asks for a primary window and for the program to end when the
/// window is closed: a new entry at the end of the list, enabled; the
/// entries before it stay, and the builder holds these settings.
#[verifier::external_body]
pub(crate) fn add_window(group: &mut PluginGroupBuilder)
    ensures
        listed(*final(group)) == listed(*old(group)).push(Some(PluginKind::Window)),
        enabled(*final(group)) == flags_after_add(
            listed(*old(group)),
            enabled(*old(group)),
            PluginKind::Window,
        ),
        window_settings(*final(group)) == Some(WindowSettings::standard()),
{
    group.add(bevy::window::WindowPlugin::default());
}

/// `PluginGroupBuilder::add` with an `AssetPlugin` in its default value: a new entry
/// at the end of the list, enabled; the entries before it stay, and the
/// window settings are untouched.
#[verifier::external_body]
pub(crate) fn add_asset(group: &mut PluginGroupBuilder)
    ensures
        listed(*final(group)) == listed(*old(group)).push(Some(PluginKind::Asset)),
        enabled(*final(group)) == flags_after_add(
            listed(*old(group)),
            enabled(*old(group)),
            PluginKind::Asset,
        ),
        window_settings(*final(group)) == window_settings(*old(group)),
{
    group.add(bevy::asset::AssetPlugin::default());
}

/// `PluginGroupBuilder::add` with a `ScenePlugin` in its default value: a new entry
/// at the end of the list, enabled; the entries before it stay, and the
/// window settings are untouched.
#[verifier::external_body]
pub(crate) fn add_scene(group: &mut PluginGroupBuilder)
    ensures
        listed(*final(group)) == listed(*old(group)).push(Some(PluginKind::Scene)),
        enabled(*final(group)) == flags_after_add(
            listed(*old(group)),
            enabled(*old(group)),
            PluginKind::Scene,
        ),
        window_settings(*final(group)) == window_settings(*old(group)),
{
    group.add(bevy::scene::ScenePlugin::default());
}

} // verus!
