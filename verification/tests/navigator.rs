use clover_viewer::navigator::{sort_texts, Navigator};

fn paths(v: &[&str]) -> Vec<String> {
    v.iter().map(|s| s.to_string()).collect()
}

#[test]
fn empty_navigator_has_nothing_to_show() {
    let mut nav = Navigator::new();
    assert_eq!(nav.get_index(), 0);
    assert_eq!(nav.current(), None);
    assert_eq!(nav.next(), None);
    assert_eq!(nav.prev(), None);
    assert!(nav.get_preview_window().is_empty());
    assert_eq!(nav.set_index(0), None);
}

#[test]
fn image_is_found_in_sorted_folder() {
    let mut nav = Navigator::new();
    nav.f_image(paths(&["d/c.png", "d/a.png", "d/b.png"]), &"d/b.png".to_string());
    assert_eq!(nav.get_index(), 1);
    assert_eq!(nav.current(), Some("d/b.png".to_string()));
}

#[test]
fn missing_image_shows_first() {
    let mut nav = Navigator::new();
    nav.f_image(paths(&["d/c.png", "d/a.png"]), &"d/x.png".to_string());
    assert_eq!(nav.get_index(), 0);
    assert_eq!(nav.current(), Some("d/a.png".to_string()));
}

#[test]
fn next_and_prev_wrap_around() {
    let mut nav = Navigator::new();
    nav.f_folder(paths(&["b", "c", "a"]));
    assert_eq!(nav.current(), Some("a".to_string()));
    assert_eq!(nav.prev(), Some("c".to_string()));
    assert_eq!(nav.get_index(), 2);
    assert_eq!(nav.next(), Some("a".to_string()));
    assert_eq!(nav.next(), Some("b".to_string()));
    assert_eq!(nav.next(), Some("c".to_string()));
    assert_eq!(nav.next(), Some("a".to_string()));
}

#[test]
fn preview_window_wraps_around() {
    let mut nav = Navigator::new();
    nav.f_folder(paths(&["a", "b", "c", "d", "e", "f"]));
    let w = nav.get_preview_window();
    let idx: Vec<usize> = w.iter().map(|(i, _)| *i).collect();
    assert_eq!(idx, vec![4, 5, 0, 1, 2]);
    assert_eq!(w[2].1, "a");
    nav.set_index(5);
    let idx: Vec<usize> = nav.get_preview_window().iter().map(|(i, _)| *i).collect();
    assert_eq!(idx, vec![3, 4, 5, 0, 1]);
}

#[test]
fn preview_window_of_one_image_repeats_it() {
    let mut nav = Navigator::new();
    nav.f_folder(paths(&["only"]));
    let w = nav.get_preview_window();
    assert_eq!(w.len(), 5);
    assert!(w.iter().all(|(i, p)| *i == 0 && p == "only"));
}

#[test]
fn set_index_out_of_range_changes_nothing() {
    let mut nav = Navigator::new();
    nav.f_folder(paths(&["a", "b"]));
    assert_eq!(nav.set_index(1), Some("b".to_string()));
    assert_eq!(nav.set_index(2), None);
    assert_eq!(nav.get_index(), 1);
}

#[test]
fn texts_sort_like_paths_in_one_folder() {
    let sorted = sort_texts(paths(&["img10.png", "Img2.png", "img1.png", "img1.png", "a"]));
    assert_eq!(sorted, paths(&["Img2.png", "a", "img1.png", "img1.png", "img10.png"]));
}
