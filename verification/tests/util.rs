use hydrigo::util::get_render_width;

#[test]
fn width_of_control_characters_is_zero() {
    assert_eq!(0, get_render_width('\u{0000}'));
    assert_eq!(0, get_render_width('\r'));
}

#[test]
fn width_of_narrow_characters_is_one() {
    assert_eq!(1, get_render_width(' '));
    assert_eq!(1, get_render_width('H'));
    assert_eq!(1, get_render_width('\n'));
    assert_eq!(1, get_render_width('\t'));
    assert_eq!(1, get_render_width('\u{0001}'));
    assert_eq!(1, get_render_width('é'));
}

#[test]
fn width_of_wide_characters_is_two() {
    assert_eq!(2, get_render_width('你'));
    assert_eq!(2, get_render_width('한'));
    assert_eq!(2, get_render_width('あ'));
}

#[test]
fn width_at_the_edges_of_the_first_wide_range() {
    assert_eq!(1, get_render_width('\u{07ff}'));
    assert_eq!(2, get_render_width('\u{0800}'));
    assert_eq!(2, get_render_width('\u{9fa5}'));
    assert_eq!(1, get_render_width('\u{9fa6}'));
}

#[test]
fn width_at_the_edges_of_the_second_wide_range() {
    assert_eq!(1, get_render_width('\u{abff}'));
    assert_eq!(2, get_render_width('\u{ac00}'));
    assert_eq!(2, get_render_width('\u{d7ff}'));
    assert_eq!(1, get_render_width('\u{e000}'));
    assert_eq!(1, get_render_width('\u{10ffff}'));
}
