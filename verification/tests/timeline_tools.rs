//! Timeline geometry and the manifest tools: grid steps, ruler ticks,
//! visible clips, relative paths, dependency blocks, and manifest parsing.

use lunaris_core::linker::{
    diff_paths, discover_plugins, err, join_components, manifest_paths, read_package_name,
    render_deps, replace_block,
};
use lunaris_core::registrar::{gather_plugins, PluginCrateTexts};
use lunaris_core::timeline::{
    choose_grid_step, grid_ticks, span_visible, time_parts, BindTo, Playhead, Renderable,
    TimelineElement, TimelineSpan,
};
use lunaris_core::timeline_test::{TimelineTestEntity, TimelineTestUiState};
use lunaris_core::world::WorldState;

fn comps(parts: &[&str]) -> Vec<String> {
    parts.iter().map(|s| s.to_string()).collect()
}

#[test]
fn the_grid_step_is_the_finest_candidate_wide_enough() {
    // at 60000 ticks per second the candidates are 60, 120, 300, ... ticks
    assert_eq!(choose_grid_step(0, 60000), 60);
    assert_eq!(choose_grid_step(60, 60000), 60);
    assert_eq!(choose_grid_step(61, 60000), 120);
    assert_eq!(choose_grid_step(200, 60000), 300);
    // beyond the coarsest candidate the fallback is one second
    assert_eq!(choose_grid_step(700_000, 60000), 60000);
}

#[test]
fn ruler_labels_split_ticks_into_seconds_and_milliseconds() {
    assert_eq!(time_parts(0, 60000), (0, 0));
    assert_eq!(time_parts(90_000, 60000), (1, 500));
    assert_eq!(time_parts(60_000, 60000), (1, 0));
    assert_eq!(time_parts(59_999, 60000), (0, 999));
}

#[test]
fn grid_ticks_cover_the_visible_range() {
    assert_eq!(grid_ticks(0, 250, 100), vec![0, 100, 200]);
    assert_eq!(grid_ticks(150, 450, 100), vec![100, 200, 300, 400]);
    assert_eq!(grid_ticks(500, 400, 100), Vec::<u64>::new());
}

#[test]
fn clips_outside_the_visible_range_are_culled() {
    let visible = TimelineSpan { start: 100, end: 200 };
    assert!(span_visible(visible, 150, 300));
    assert!(span_visible(visible, 0, 100));
    assert!(!span_visible(visible, 201, 300));
    assert!(!span_visible(visible, 0, 99));
}

#[test]
fn visible_clips_keep_entity_order() {
    let mut world = WorldState::new();
    let a = world.spawn();
    let b = world.spawn();
    let c = world.spawn();
    world.insert_element(
        a,
        TimelineElement { track_num: 0, position: TimelineSpan { start: 0, end: 50 } },
    );
    world.insert_element(
        b,
        TimelineElement { track_num: 1, position: TimelineSpan { start: 500, end: 600 } },
    );
    world.insert_element(
        c,
        TimelineElement { track_num: 2, position: TimelineSpan { start: 40, end: 80 } },
    );
    let clips = lunaris_core::timeline::visible_clips(&world, 0, 100);
    assert_eq!(clips.len(), 2);
    assert_eq!(clips[0].0, a);
    assert_eq!(clips[1].0, c);
}

#[test]
fn errors_carry_their_message() {
    let e = err("linker Cargo.toml not found");
    assert_eq!(e.message().as_str(), "linker Cargo.toml not found");
}

#[test]
fn relative_paths_climb_out_of_the_base() {
    let r = diff_paths(&comps(&["plugins", "core", "video"]), &comps(&["linker"])).unwrap();
    assert_eq!(r, comps(&["..", "plugins", "core", "video"]));
    let shared = diff_paths(
        &comps(&["work", "plugins", "video"]),
        &comps(&["work", "linker"]),
    )
    .unwrap();
    assert_eq!(shared, comps(&["..", "plugins", "video"]));
    let same = diff_paths(&comps(&["a", "b"]), &comps(&["a", "b"])).unwrap();
    assert_eq!(same, comps(&["."]));
}

#[test]
fn joined_components_use_slashes() {
    assert_eq!(join_components(&comps(&["a", "b", "c"])), "a/b/c");
    assert_eq!(join_components(&comps(&["a"])), "a");
    assert_eq!(join_components(&comps(&[])), "");
}

#[test]
fn rendered_dependency_blocks_list_each_plugin() {
    let entries = vec![
        (String::from("video"), comps(&["..", "plugins", "video"])),
        (String::from("dummy"), comps(&["..", "plugins", "dummy"])),
    ];
    let s = render_deps(&entries);
    assert_eq!(
        s,
        "video = { path = \"../plugins/video\" }\ndummy = { path = \"../plugins/dummy\" }\n"
    );
}

#[test]
fn replace_block_rewrites_only_the_marked_region() {
    // the closing marker carries trailing whitespace, as an edited file
    // may: markers match after trimming, and are written back bare
    let content = comps(&[
        "[package]",
        "name = \"linker\"",
        "[dependencies]",
        "# BEGIN AUTO-PLUGINS",
        "old = { path = \"gone\" }",
        "# END AUTO-PLUGINS  ",
        "serde = \"1\"",
    ]);
    let block = comps(&["video = { path = \"../plugins/video\" }"]);
    let out = replace_block(&content, &block);
    assert_eq!(
        out,
        comps(&[
            "[package]",
            "name = \"linker\"",
            "[dependencies]",
            "# BEGIN AUTO-PLUGINS",
            "video = { path = \"../plugins/video\" }",
            "# END AUTO-PLUGINS",
            "serde = \"1\"",
        ])
    );
}

#[test]
fn manifest_paths_keep_only_cargo_tomls() {
    let walked = vec![
        comps(&["plugins", "core", "video", "Cargo.toml"]),
        comps(&["plugins", "core", "video", "src", "lib.rs"]),
        comps(&["plugins", "README.md"]),
        comps(&["plugins", "external", "testing", "Cargo.toml"]),
    ];
    let found = manifest_paths(&walked);
    assert_eq!(found.len(), 2);
    assert_eq!(found[0], comps(&["plugins", "core", "video", "Cargo.toml"]));
    assert_eq!(
        found[1],
        comps(&["plugins", "external", "testing", "Cargo.toml"])
    );
}

#[test]
fn discover_plugins_lists_each_crate_with_a_manifest() {
    let candidates = vec![
        (comps(&["plugins", "core", "dummy"]), true),
        (comps(&["plugins", "core", "notes"]), false),
        (comps(&["plugins", "external", "testing"]), true),
    ];
    let found = discover_plugins(&candidates);
    assert_eq!(found.len(), 2);
    assert_eq!(found[0], comps(&["plugins", "core", "dummy", "Cargo.toml"]));
    assert_eq!(
        found[1],
        comps(&["plugins", "external", "testing", "Cargo.toml"])
    );
}

#[test]
fn package_names_are_read_from_real_manifests() {
    let text = "[package]\nname = \"lunaris_video\"\nversion = \"0.1.0\"\n";
    let (name, dir) = read_package_name(&comps(&["plugins", "video", "Cargo.toml"]), text)
        .expect("a well-formed manifest parses")
        .expect("a well-formed manifest has a name");
    assert_eq!(name, "lunaris_video");
    assert_eq!(dir, comps(&["plugins", "video"]));
    // a manifest without a package table parses, but yields no name
    let no_name = read_package_name(&comps(&["x"]), "[dependencies]\nserde = \"1\"\n");
    assert!(matches!(no_name, Ok(None)));
    // a text that is not TOML is an error, not a silent skip
    assert!(read_package_name(&comps(&["x"]), "not toml at all {{{{").is_err());
}

#[test]
fn gathered_plugins_carry_their_configuration() {
    let inputs = vec![PluginCrateTexts {
        path: comps(&["plugins", "core", "video"]),
        cargo_text: String::from("[package]\nname = \"lunaris_video\"\n"),
        plugin_text: String::from("name = \"Video Backend\"\nfeatures = [\"Gui\"]\n"),
    }];
    let crates = gather_plugins(&inputs).expect("well-formed inputs gather");
    assert_eq!(crates.len(), 1);
    assert_eq!(crates[0].package_name, "lunaris_video");
    assert_eq!(crates[0].config.name, "Video Backend");
    assert!(crates[0].config.has_gui());
    assert_eq!(crates[0].path, comps(&["plugins", "core", "video"]));
}

#[test]
fn a_plugin_without_gui_feature_advertises_none() {
    let inputs = vec![PluginCrateTexts {
        path: comps(&["p"]),
        cargo_text: String::from("[package]\nname = \"p\"\n"),
        plugin_text: String::from("name = \"p\"\n"),
    }];
    let crates = gather_plugins(&inputs).unwrap();
    assert!(!crates[0].config.has_gui());
}

#[test]
fn a_broken_plugin_manifest_stops_the_gathering() {
    let inputs = vec![PluginCrateTexts {
        path: comps(&["p"]),
        cargo_text: String::from("no package here"),
        plugin_text: String::from("name = \"p\"\n"),
    }];
    assert!(gather_plugins(&inputs).is_err());
}

#[test]
fn timeline_components_carry_their_fields() {
    let playhead = Playhead { current: 42 };
    assert_eq!(playhead.current, 42);
    let bound = BindTo { id: 7 };
    assert_eq!(bound.id, 7);
    let test_entity = TimelineTestEntity(9);
    assert_eq!(test_entity.0, 9);
    let ui = TimelineTestUiState { entity_id: Some(9), last_rendered_frame: None };
    assert_eq!(ui.entity_id, Some(9));
    assert_eq!(ui.last_rendered_frame, None);
    let image = lunaris_core::render::RawImage::from_rgba8(1, 1, vec![0, 0, 0, 255]).unwrap();
    let renderable = Renderable { render_result: Ok(image) };
    assert!(renderable.render_result.is_ok());
}
