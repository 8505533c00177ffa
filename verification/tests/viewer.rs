use clover_viewer::viewer::{
    close_hides_to_tray, is_capturable_window, is_image_extension, is_own_app_name, load_plan, load_reaction,
    should_open_dropped, text_contains, LoadBatch, LoadPlan, LoadReaction,
    MAX_LOAD_RESULTS_PER_FRAME,
};

fn chars(s: &str) -> Vec<char> {
    s.chars().collect()
}

#[test]
fn cached_texture_wins_over_failure() {
    assert_eq!(load_plan(true, true), LoadPlan::UseCachedTexture);
    assert_eq!(load_plan(true, false), LoadPlan::UseCachedTexture);
    assert_eq!(load_plan(false, true), LoadPlan::ShowError);
    assert_eq!(load_plan(false, false), LoadPlan::ShowThumbnailAndLoad);
}

#[test]
fn thumbnail_of_current_shown_only_when_nothing_is() {
    let r = load_reaction(true, true, false, true, false);
    assert!(r.cache_thumbnail && r.show && !r.cache_texture && !r.finish_current);
    let r = load_reaction(true, true, false, true, true);
    assert!(r.cache_thumbnail && !r.show);
    let r = load_reaction(true, true, false, false, false);
    assert!(!r.show);
}

#[test]
fn full_image_of_current_is_finished() {
    let r = load_reaction(true, false, true, true, true);
    assert_eq!(
        r,
        LoadReaction {
            cache_thumbnail: false,
            cache_texture: true,
            show: true,
            finish_current: true,
            mark_failed: false,
            report_error: false,
        }
    );
    let r = load_reaction(true, false, true, false, false);
    assert!(r.cache_texture && !r.show && !r.finish_current);
}

#[test]
fn failures_are_reported_only_with_priority() {
    let r = load_reaction(false, false, true, true, false);
    assert!(r.mark_failed && r.report_error && !r.show);
    let r = load_reaction(false, true, false, true, false);
    assert!(r.mark_failed && !r.report_error && !r.cache_thumbnail);
}

#[test]
fn load_batch_takes_seven_per_frame() {
    let mut batch = LoadBatch::new();
    assert!(!batch.received_any && !batch.trigger_preloads);
    let thumb = load_reaction(true, true, false, false, false);
    let full = load_reaction(true, false, true, true, false);
    let mut taken = 0;
    while batch.wants_more() {
        batch.record(if taken == 3 { full } else { thumb });
        taken += 1;
    }
    assert_eq!(taken, 7);
    assert_eq!(MAX_LOAD_RESULTS_PER_FRAME, 7);
    assert!(batch.received_any);
    assert!(batch.trigger_preloads);
}

#[test]
fn dropped_files_and_closing() {
    assert!(should_open_dropped(true));
    assert!(!should_open_dropped(false));
    assert!(close_hides_to_tray(true, false));
    assert!(!close_hides_to_tray(true, true));
    assert!(!close_hides_to_tray(false, false));
}

#[test]
fn text_search() {
    assert!(text_contains(&chars("my cloverviewer app"), &chars("cloverviewer")));
    assert!(!text_contains(&chars("clover"), &chars("cloverviewer")));
    assert!(text_contains(&chars("abc"), &chars("")));
    assert!(!text_contains(&chars("abcab"), &chars("abd")));
}

#[test]
fn own_windows_are_not_capturable() {
    assert!(is_own_app_name("cloverviewer.exe"));
    assert!(is_own_app_name("my screenshot tool"));
    assert!(!is_own_app_name("firefox"));
    assert!(!is_capturable_window(false, "CloverViewer", 800, 600));
    assert!(!is_capturable_window(false, "ScreenShot Helper", 800, 600));
    assert!(is_capturable_window(false, "Firefox", 800, 600));
    assert!(!is_capturable_window(true, "Firefox", 800, 600));
    assert!(!is_capturable_window(false, "Firefox", 50, 600));
    assert!(is_capturable_window(false, "Firefox", 51, 51));
}

#[test]
fn image_extensions_in_any_case() {
    assert!(is_image_extension("png"));
    assert!(is_image_extension("JPG"));
    assert!(is_image_extension("JpEg"));
    assert!(!is_image_extension("gif"));
    assert!(!is_image_extension(""));
    assert!(!is_image_extension("pngx"));
}
