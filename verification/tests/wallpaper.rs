use natgeo_wallpapers::DesktopEnvironment;
use natgeo_wallpapers::PhotoError;
use natgeo_wallpapers::ToolAvailability;
use natgeo_wallpapers::WallpaperMode;
use natgeo_wallpapers::build_assignments;
use natgeo_wallpapers::collect_outcomes;
use natgeo_wallpapers::count_from_probe;
use natgeo_wallpapers::detect_desktop_environment;
use natgeo_wallpapers::effective_mode;
use natgeo_wallpapers::file_uri;
use natgeo_wallpapers::is_supported_photo;
use natgeo_wallpapers::monitor_count;
use natgeo_wallpapers::monitor_query_tool;
use natgeo_wallpapers::overall_status;
use natgeo_wallpapers::plan_apply_calls;
use natgeo_wallpapers::plan_wallpaper_run;
use natgeo_wallpapers::plasma_wallpaper_script;
use natgeo_wallpapers::select_pool;
use natgeo_wallpapers::virtual_desktop_count;

fn no_tools() -> ToolAvailability {
    ToolAvailability {
        qdbus6: false,
        qdbus: false,
        plasmashell_running: false,
        plasma_apply_wallpaperimage: false,
        gsettings: false,
        feh: false,
    }
}

fn pool(names: &[&str]) -> Vec<String> {
    names.iter().map(|s| s.to_string()).collect()
}

#[test]
fn classification_follows_the_priority_order() {
    let mut t = no_tools();
    assert!(matches!(
        detect_desktop_environment(&t),
        DesktopEnvironment::Unknown
    ));

    t.feh = true;
    assert!(matches!(
        detect_desktop_environment(&t),
        DesktopEnvironment::Feh
    ));

    t.gsettings = true;
    assert!(matches!(
        detect_desktop_environment(&t),
        DesktopEnvironment::Gnome
    ));

    t.plasma_apply_wallpaperimage = true;
    assert!(matches!(
        detect_desktop_environment(&t),
        DesktopEnvironment::PlasmaFallback
    ));

    // qdbus alone is not enough without a running shell
    t.qdbus = true;
    assert!(matches!(
        detect_desktop_environment(&t),
        DesktopEnvironment::PlasmaFallback
    ));

    t.plasmashell_running = true;
    assert!(matches!(
        detect_desktop_environment(&t),
        DesktopEnvironment::KdePlasma5
    ));

    t.qdbus6 = true;
    assert!(matches!(
        detect_desktop_environment(&t),
        DesktopEnvironment::KdePlasma6
    ));
}

#[test]
fn only_plasma6_keeps_the_requested_mode() {
    for requested in [
        WallpaperMode::Monitors,
        WallpaperMode::VirtualDesktops,
        WallpaperMode::Both,
    ] {
        assert_eq!(effective_mode(DesktopEnvironment::KdePlasma6, requested), requested);
        for de in [
            DesktopEnvironment::KdePlasma5,
            DesktopEnvironment::PlasmaFallback,
            DesktopEnvironment::Gnome,
            DesktopEnvironment::Feh,
            DesktopEnvironment::Unknown,
        ] {
            assert!(matches!(
                effective_mode(de, requested),
                WallpaperMode::Monitors
            ));
        }
    }
}

#[test]
fn probe_output_parses_with_default_one() {
    assert_eq!(count_from_probe("3\n"), 3);
    assert_eq!(count_from_probe(" 42 \n"), 42);
    assert_eq!(count_from_probe("2"), 2);
    assert_eq!(count_from_probe(""), 1);
    assert_eq!(count_from_probe("abc"), 1);
    assert_eq!(count_from_probe("0"), 1);
    assert_eq!(count_from_probe("12x"), 1);
    assert_eq!(count_from_probe("99999999999999999999999999999999"), 1);
}

#[test]
fn topology_is_one_without_a_plasma_tool() {
    assert_eq!(monitor_count(DesktopEnvironment::Gnome, &Some("4".to_string())), 1);
    assert_eq!(monitor_count(DesktopEnvironment::KdePlasma5, &Some("4".to_string())), 4);
    assert_eq!(monitor_count(DesktopEnvironment::KdePlasma6, &None), 1);
    assert_eq!(virtual_desktop_count(DesktopEnvironment::KdePlasma5, &Some("4".to_string())), 1);
    assert_eq!(virtual_desktop_count(DesktopEnvironment::KdePlasma6, &Some("4".to_string())), 4);
    assert!(matches!(monitor_query_tool(DesktopEnvironment::KdePlasma6), Some("qdbus6")));
    assert!(matches!(monitor_query_tool(DesktopEnvironment::KdePlasma5), Some("qdbus")));
    assert!(monitor_query_tool(DesktopEnvironment::Feh).is_none());
}

#[test]
fn empty_pool_is_rejected_for_both_randomize_values() {
    for randomize in [false, true] {
        match select_pool(Vec::new(), randomize) {
            Err(PhotoError::NoPhotos(_)) => {}
            other => panic!("expected the empty-pool error, got {:?}", other),
        }
    }
}

#[test]
fn unshuffled_pool_is_passed_through_unchanged() {
    let photos = pool(&["/p/c.jpg", "/p/a.jpg", "/p/b.jpg"]);
    let selected = select_pool(photos.clone(), false).unwrap();
    assert_eq!(selected, photos);
}

#[test]
fn shuffled_pool_is_a_permutation() {
    let photos = pool(&["/p/1.jpg", "/p/2.jpg", "/p/3.jpg", "/p/4.jpg", "/p/5.jpg"]);
    let selected = select_pool(photos.clone(), true).unwrap();
    assert_eq!(selected.len(), photos.len());
    let mut a = selected.clone();
    let mut b = photos.clone();
    a.sort();
    b.sort();
    assert_eq!(a, b);
}

#[test]
fn monitors_plan_cycles_photos_and_flags_the_first() {
    let photos = pool(&["/p/new.jpg", "/p/mid.jpg", "/p/old.jpg"]);
    let plan = build_assignments(WallpaperMode::Monitors, &photos, 5, 1);
    assert_eq!(plan.len(), 5);
    for (i, a) in plan.iter().enumerate() {
        assert_eq!(a.photo_path, photos[i % 3]);
        assert_eq!(a.location, format!("Monitor {}", i + 1));
        assert_eq!(a.is_newest, i == 0);
    }
}

#[test]
fn both_plan_varies_monitor_faster_than_desktop() {
    let photos = pool(&["/p/a.jpg", "/p/b.jpg", "/p/c.jpg", "/p/d.jpg"]);
    let plan = build_assignments(WallpaperMode::Both, &photos, 2, 3);
    assert_eq!(plan.len(), 6);
    let expected_locations = [
        "Monitor 1, VD 1",
        "Monitor 2, VD 1",
        "Monitor 1, VD 2",
        "Monitor 2, VD 2",
        "Monitor 1, VD 3",
        "Monitor 2, VD 3",
    ];
    for (i, a) in plan.iter().enumerate() {
        assert_eq!(a.location, expected_locations[i]);
        assert_eq!(a.photo_path, photos[i % 4]);
        assert_eq!(a.is_newest, i == 0);
    }
}

#[test]
fn virtual_desktop_plan_enumerates_desktops() {
    let photos = pool(&["/p/a.jpg"]);
    let plan = build_assignments(WallpaperMode::VirtualDesktops, &photos, 1, 3);
    assert_eq!(plan.len(), 3);
    assert_eq!(plan[2].location, "Virtual Desktop 3");
    assert_eq!(plan[2].photo_path, "/p/a.jpg");
}

#[test]
fn gnome_both_request_downgrades_to_one_call() {
    // Environment Gnome, requested Both, pool of 3, monitor count 1
    let mut tools = no_tools();
    tools.gsettings = true;
    let de = detect_desktop_environment(&tools);
    assert!(matches!(de, DesktopEnvironment::Gnome));
    let m = monitor_count(de, &None);
    let v = virtual_desktop_count(de, &None);
    assert_eq!((m, v), (1, 1));

    let photos = pool(&["/p/a.jpg", "/p/b.jpg", "/p/c.jpg"]);
    let plan = plan_wallpaper_run(WallpaperMode::Both, &photos, de, m, v).unwrap();
    assert!(matches!(plan.effective, WallpaperMode::Monitors));
    assert_eq!(plan.assignments.len(), 1);
    assert_eq!(plan.calls.len(), 1);
    assert_eq!(plan.calls[0].photo_path, "/p/a.jpg");
}

#[test]
fn plasma6_two_monitors_reuse_a_single_photo() {
    // Environment Plasma 6, requested Monitors, probe reports 2, pool of 1
    let de = DesktopEnvironment::KdePlasma6;
    let m = monitor_count(de, &Some("2\n".to_string()));
    assert_eq!(m, 2);
    let photos = pool(&["/p/only.jpg"]);
    let plan = plan_wallpaper_run(WallpaperMode::Monitors, &photos, de, m, 1).unwrap();
    assert_eq!(plan.assignments.len(), 2);
    assert_eq!(plan.assignments[0].photo_path, "/p/only.jpg");
    assert_eq!(plan.assignments[1].photo_path, "/p/only.jpg");
    assert!(plan.assignments[0].is_newest);
    assert!(!plan.assignments[1].is_newest);
    assert_eq!(plan.calls.len(), 2);
    assert_eq!(plan.calls[0].monitor_index, 0);
    assert_eq!(plan.calls[1].monitor_index, 1);
}

#[test]
fn plasma6_virtual_desktops_fan_out_over_monitors() {
    // Environment Plasma 6, requested VirtualDesktops, 2 desktops, 3 monitors,
    // pool of 2: one assignment per desktop, three calls per assignment.
    let de = DesktopEnvironment::KdePlasma6;
    let photos = pool(&["/p/a.jpg", "/p/b.jpg"]);
    let plan = plan_wallpaper_run(WallpaperMode::VirtualDesktops, &photos, de, 3, 2).unwrap();
    assert_eq!(plan.assignments.len(), 2);
    assert_eq!(plan.calls.len(), 6);
    for (k, call) in plan.calls.iter().enumerate() {
        assert_eq!(call.monitor_index, k % 3);
        assert_eq!(call.photo_path, plan.assignments[k / 3].photo_path);
        assert_eq!(call.location, plan.assignments[k / 3].location);
    }
}

#[test]
fn unknown_environment_and_empty_pool_are_fatal() {
    let photos = pool(&["/p/a.jpg"]);
    match plan_wallpaper_run(WallpaperMode::Monitors, &photos, DesktopEnvironment::Unknown, 1, 1) {
        Err(PhotoError::Wallpaper(m)) => assert_eq!(m, "No supported wallpaper tool found"),
        other => panic!("expected the unsupported-environment error, got {:?}", other),
    }
    match plan_wallpaper_run(WallpaperMode::Monitors, &Vec::new(), DesktopEnvironment::Gnome, 1, 1)
    {
        Err(PhotoError::NoPhotos(m)) => assert_eq!(m, "empty photo pool"),
        other => panic!("expected the empty-pool error, got {:?}", other),
    }
}

#[test]
fn one_failed_apply_call_does_not_stop_the_batch() {
    // Three planned calls; the middle one fails with diagnostic output.
    let de = DesktopEnvironment::KdePlasma6;
    let photos = pool(&["/p/a.jpg", "/p/b.jpg", "/p/c.jpg"]);
    let plan = plan_wallpaper_run(WallpaperMode::Monitors, &photos, de, 3, 1).unwrap();
    assert_eq!(plan.calls.len(), 3);

    let results: Vec<Result<(), String>> =
        vec![Ok(()), Err("qdbus6: no such monitor".to_string()), Ok(())];
    let outcomes = collect_outcomes(&plan.calls, &results);
    assert_eq!(outcomes.len(), 3);
    assert!(outcomes[0].success);
    assert!(!outcomes[1].success);
    assert!(outcomes[2].success);
    assert_eq!(outcomes[1].detail, "qdbus6: no such monitor");
    assert_eq!(outcomes[1].location, "Monitor 2");
    assert_eq!(outcomes[0].detail, "");

    // The operation as a whole still reports success.
    assert!(overall_status(&outcomes).is_ok());
}

#[test]
fn single_target_tools_apply_only_the_primary() {
    let photos = pool(&["/p/a.jpg", "/p/b.jpg"]);
    for de in [
        DesktopEnvironment::PlasmaFallback,
        DesktopEnvironment::Gnome,
        DesktopEnvironment::Feh,
    ] {
        let assignments = build_assignments(WallpaperMode::Monitors, &photos, 1, 1);
        let calls = plan_apply_calls(de, WallpaperMode::Monitors, &assignments, 1);
        assert_eq!(calls.len(), 1);
        assert_eq!(calls[0].photo_path, "/p/a.jpg");
    }
}

#[test]
fn plasma_script_embeds_monitor_and_path() {
    let s = plasma_wallpaper_script(2, "/home/me/photo.jpg");
    let expected = "var allDesktops = desktops();\nif (2 < allDesktops.length) {\n    d = allDesktops[2];\n    d.wallpaperPlugin = 'org.kde.image';\n    d.currentConfigGroup = Array('Wallpaper', 'org.kde.image', 'General');\n    d.writeConfig('Image', 'file:///home/me/photo.jpg');\n}";
    assert_eq!(s, expected);
}

#[test]
fn file_uri_prefixes_the_path() {
    assert_eq!(file_uri("/a/b.jpg"), "file:///a/b.jpg");
}

#[test]
fn supported_photo_extensions_are_case_insensitive() {
    assert!(is_supported_photo("/pics/a.jpg"));
    assert!(is_supported_photo("/pics/a.JPG"));
    assert!(is_supported_photo("/pics/b.jpeg"));
    assert!(is_supported_photo("/pics/c.png"));
    assert!(is_supported_photo("/pics/d.Gif"));
    assert!(!is_supported_photo("/pics/e.txt"));
    assert!(!is_supported_photo("/pics/noext"));
    assert!(!is_supported_photo("/pics/.jpg"));
    assert!(is_supported_photo("relative.png"));
}
