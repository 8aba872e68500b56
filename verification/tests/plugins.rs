use std::any::TypeId;

use bevy::app::{App, AppBuilder, Events, Plugin, PluginGroupBuilder};
use bevy::asset::{AssetPlugin, AssetServer};
use bevy::diagnostic::{Diagnostics, DiagnosticsPlugin};
use bevy::ecs::world::World;
use bevy::input::keyboard::KeyCode;
use bevy::input::{Input, InputPlugin};
use bevy::reflect::TypeRegistry;
use bevy::scene::{ScenePlugin, SceneSpawner};
use bevy::transform::components::Transform;
use bevy::transform::TransformPlugin;
use bevy::window::{CreateWindow, WindowId, WindowPlugin, Windows};
use wireframe_scene::kind::{EngineFeatures, PluginKind};
use wireframe_scene::plugins::TestDefaultPlugins;

/// What the base plugins have left in the world so far, one flag per plugin
/// in registration order.
fn built_so_far(world: &World) -> [bool; 7] {
    let transform = world
        .get_resource::<TypeRegistry>()
        .map(|registry| registry.read().get(TypeId::of::<Transform>()).is_some())
        .unwrap_or(false);
    [
        world.contains_resource::<bevy::core::Time>(),
        transform,
        world.contains_resource::<Diagnostics>(),
        world.contains_resource::<Input<KeyCode>>(),
        world.contains_resource::<Windows>(),
        world.contains_resource::<AssetServer>(),
        world.contains_resource::<SceneSpawner>(),
    ]
}

/// The observations of the probes, in the order in which they were built.
struct Seen(Vec<(usize, [bool; 7])>);

/// A plugin that notes what has been built when its own turn comes.
struct Probe<const N: usize>;

impl<const N: usize> Plugin for Probe<N> {
    fn build(&self, app: &mut AppBuilder) {
        let now = built_so_far(app.world());
        let mut seen = app.world_mut().get_resource_or_insert_with(|| Seen(Vec::new()));
        seen.0.push((N, now));
    }
}

fn features(on: bool) -> EngineFeatures {
    EngineFeatures {
        render: on,
        sprite: on,
        pbr: on,
        ui: on,
        text: on,
        audio: on,
        gilrs: on,
        gltf: on,
        winit: on,
        wgpu: on,
    }
}

fn base_group() -> PluginGroupBuilder {
    let mut group = PluginGroupBuilder::default();
    let mut plugins = TestDefaultPlugins;
    plugins.build(&mut group, &features(false));
    group
}

fn first_built(n: usize) -> [bool; 7] {
    let mut flags = [false; 7];
    for flag in flags.iter_mut().take(n) {
        *flag = true;
    }
    flags
}

#[test]
fn build_registers_every_base_plugin() {
    let group = base_group();
    let mut app = App::build();
    assert_eq!(built_so_far(app.world()), [false; 7]);
    group.finish(&mut app);
    assert_eq!(built_so_far(app.world()), [true; 7]);
}

#[test]
fn build_adds_core_plugin() {
    let mut group = base_group();
    group.disable::<bevy::core::CorePlugin>();
    group.disable::<AssetPlugin>();
    group.disable::<ScenePlugin>();
    let mut app = App::build();
    group.finish(&mut app);
    assert_eq!(
        built_so_far(app.world()),
        [false, true, true, true, true, false, false]
    );
}

#[test]
fn build_adds_transform_plugin() {
    let mut group = base_group();
    group.disable::<TransformPlugin>();
    let mut app = App::build();
    group.finish(&mut app);
    assert_eq!(
        built_so_far(app.world()),
        [true, false, true, true, true, true, true]
    );
}

#[test]
fn build_adds_diagnostics_plugin() {
    let mut group = base_group();
    group.disable::<DiagnosticsPlugin>();
    let mut app = App::build();
    group.finish(&mut app);
    assert_eq!(
        built_so_far(app.world()),
        [true, true, false, true, true, true, true]
    );
}

#[test]
fn build_adds_input_plugin() {
    let mut group = base_group();
    group.disable::<InputPlugin>();
    let mut app = App::build();
    group.finish(&mut app);
    assert_eq!(
        built_so_far(app.world()),
        [true, true, true, false, true, true, true]
    );
}

#[test]
fn build_adds_window_plugin() {
    let mut group = base_group();
    group.disable::<WindowPlugin>();
    let mut app = App::build();
    group.finish(&mut app);
    assert_eq!(
        built_so_far(app.world()),
        [true, true, true, true, false, true, true]
    );
}

#[test]
fn build_adds_asset_plugin() {
    let mut group = base_group();
    group.disable::<AssetPlugin>();
    group.disable::<ScenePlugin>();
    let mut app = App::build();
    group.finish(&mut app);
    assert_eq!(
        built_so_far(app.world()),
        [true, true, true, true, true, false, false]
    );
}

#[test]
fn build_adds_scene_plugin() {
    let mut group = base_group();
    group.disable::<ScenePlugin>();
    let mut app = App::build();
    group.finish(&mut app);
    assert_eq!(
        built_so_far(app.world()),
        [true, true, true, true, true, true, false]
    );
}

#[test]
fn base_plugins_are_built_in_order() {
    let mut group = base_group();
    group.add_before::<bevy::core::CorePlugin, _>(Probe::<0>);
    group.add_after::<bevy::core::CorePlugin, _>(Probe::<1>);
    group.add_after::<TransformPlugin, _>(Probe::<2>);
    group.add_after::<DiagnosticsPlugin, _>(Probe::<3>);
    group.add_after::<InputPlugin, _>(Probe::<4>);
    group.add_after::<WindowPlugin, _>(Probe::<5>);
    group.add_after::<AssetPlugin, _>(Probe::<6>);
    group.add_after::<ScenePlugin, _>(Probe::<7>);
    let mut app = App::build();
    group.finish(&mut app);
    let seen = app.world().get_resource::<Seen>().unwrap();
    let expected: Vec<(usize, [bool; 7])> = (0..8).map(|n| (n, first_built(n))).collect();
    assert_eq!(seen.0, expected);
}

#[test]
fn build_keeps_what_the_group_holds() {
    let mut group = PluginGroupBuilder::default();
    group.add(Probe::<0>);
    let mut plugins = TestDefaultPlugins;
    plugins.build(&mut group, &features(true));
    group.add(Probe::<7>);
    let mut app = App::build();
    group.finish(&mut app);
    let seen = app.world().get_resource::<Seen>().unwrap();
    assert_eq!(seen.0, vec![(0, [false; 7]), (7, [true; 7])]);
}

#[test]
fn build_leaves_a_disabled_stranger_disabled() {
    let mut group = PluginGroupBuilder::default();
    group.add(Probe::<0>);
    group.add(Probe::<1>);
    group.disable::<Probe<0>>();
    let mut plugins = TestDefaultPlugins;
    plugins.build(&mut group, &features(false));
    let mut app = App::build();
    group.finish(&mut app);
    let seen = app.world().get_resource::<Seen>().unwrap();
    assert_eq!(seen.0, vec![(1, [false; 7])]);
}

#[test]
fn build_enables_a_base_plugin_that_was_disabled() {
    let mut group = PluginGroupBuilder::default();
    group.add(DiagnosticsPlugin::default());
    group.disable::<DiagnosticsPlugin>();
    group.add(Probe::<0>);
    let mut plugins = TestDefaultPlugins;
    plugins.build(&mut group, &features(false));
    let mut app = App::build();
    group.finish(&mut app);
    let seen = app.world().get_resource::<Seen>().unwrap();
    assert_eq!(
        seen.0,
        vec![(0, [false, false, true, false, false, false, false])]
    );
}

/// How many windows had been asked for when each window probe was built.
struct Asked(Vec<usize>);

/// A plugin that counts the windows asked for when its own turn comes.
struct WindowProbe;

impl Plugin for WindowProbe {
    fn build(&self, app: &mut AppBuilder) {
        let now = app
            .world()
            .get_resource::<Events<CreateWindow>>()
            .map(|asked| asked.get_reader().iter(asked).count())
            .unwrap_or(0);
        let mut asked = app.world_mut().get_resource_or_insert_with(|| Asked(Vec::new()));
        asked.0.push(now);
    }
}

#[test]
fn build_sets_the_window_plugin_to_its_default() {
    let mut group = PluginGroupBuilder::default();
    group.add(WindowPlugin {
        add_primary_window: false,
        exit_on_close: false,
    });
    group.disable::<WindowPlugin>();
    group.add(WindowProbe);
    let mut plugins = TestDefaultPlugins;
    plugins.build(&mut group, &features(false));
    let mut app = App::build();
    group.finish(&mut app);
    assert_eq!(app.world().get_resource::<Asked>().unwrap().0, vec![1]);
    let asked = app.world().get_resource::<Events<CreateWindow>>().unwrap();
    let ids: Vec<WindowId> = asked.get_reader().iter(asked).map(|event| event.id).collect();
    assert_eq!(ids, vec![WindowId::primary()]);
}

#[test]
fn a_window_plugin_set_otherwise_asks_for_no_window() {
    let mut group = PluginGroupBuilder::default();
    group.add(WindowPlugin {
        add_primary_window: false,
        exit_on_close: false,
    });
    group.add(WindowProbe);
    let mut app = App::build();
    group.finish(&mut app);
    assert_eq!(app.world().get_resource::<Asked>().unwrap().0, vec![0]);
}

#[test]
fn build_hands_back_the_optional_plugins() {
    let mut group = PluginGroupBuilder::default();
    let mut plugins = TestDefaultPlugins;
    assert_eq!(plugins.build(&mut group, &features(false)), vec![]);
    let mut group = PluginGroupBuilder::default();
    let rest = plugins.build(&mut group, &features(true));
    assert_eq!(
        rest,
        vec![
            PluginKind::Render,
            PluginKind::Sprite,
            PluginKind::Pbr,
            PluginKind::Ui,
            PluginKind::Text,
            PluginKind::Audio,
            PluginKind::Gilrs,
            PluginKind::Gltf,
            PluginKind::Winit,
            PluginKind::Wgpu,
        ]
    );
    let only = EngineFeatures {
        pbr: true,
        winit: true,
        ..features(false)
    };
    let mut group = PluginGroupBuilder::default();
    let rest = plugins.build(&mut group, &only);
    assert_eq!(rest, vec![PluginKind::Pbr, PluginKind::Winit]);
    assert_eq!(rest, plugins.optional(&only));
}

#[test]
fn new_group_holds_the_base_plugins_and_nothing_else() {
    let mut plugins = TestDefaultPlugins;
    let (mut group, rest) = plugins.new_group(&features(false));
    assert_eq!(rest, vec![]);
    group.add_before::<bevy::core::CorePlugin, _>(Probe::<0>);
    group.add_after::<ScenePlugin, _>(Probe::<7>);
    let mut app = App::build();
    group.finish(&mut app);
    let seen = app.world().get_resource::<Seen>().unwrap();
    assert_eq!(seen.0, vec![(0, [false; 7]), (7, [true; 7])]);
    assert!(!app.world().contains_resource::<bevy::log::LogSettings>());
    let asked = app.world().get_resource::<Events<CreateWindow>>().unwrap();
    assert_eq!(asked.get_reader().iter(asked).count(), 1);
}

#[test]
fn new_group_lists_what_is_left_to_add() {
    let mut plugins = TestDefaultPlugins;
    let only = EngineFeatures {
        render: true,
        wgpu: true,
        ..features(false)
    };
    let (_, rest) = plugins.new_group(&only);
    assert_eq!(rest, vec![PluginKind::Render, PluginKind::Wgpu]);
}
