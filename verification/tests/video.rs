use yet_another_rchip8::video::Video;

fn lit(video: &Video) -> Vec<(usize, usize)> {
    let mut found = Vec::new();
    let grid = video.get_grid();
    for (x, column) in grid.iter().enumerate() {
        for (y, &cell) in column.iter().enumerate() {
            assert!(cell <= 1);
            if cell == 1 {
                found.push((x, y));
            }
        }
    }
    found
}

#[test]
fn new_video_is_blank_and_has_its_size() {
    let video = Video::new(64, 32);
    assert_eq!(video.width(), 64);
    assert_eq!(video.height(), 32);
    let grid = video.get_grid();
    assert_eq!(grid.len(), 64);
    for column in grid {
        assert_eq!(column.len(), 32);
    }
    assert_eq!(lit(&video), vec![]);
}

#[test]
fn video_of_another_size() {
    let mut video = Video::new(3, 2);
    assert_eq!(video.width(), 3);
    assert_eq!(video.height(), 2);
    assert_eq!(video.get_grid().len(), 3);
    assert_eq!(video.get_grid()[0].len(), 2);
    let flag = video.draw(1, 1, 2, &[0xFF, 0xFF]);
    assert_eq!(flag, 0);
    assert_eq!(lit(&video), vec![(1, 1), (2, 1)]);
}

#[test]
fn video_of_no_size_draws_nothing() {
    let mut video = Video::new(0, 0);
    assert_eq!(video.draw(0, 0, 1, &[0xFF]), 0);
    assert_eq!(video.get_grid().len(), 0);
}

#[test]
fn draw_puts_the_most_significant_bit_first() {
    let mut video = Video::new(64, 32);
    let flag = video.draw(10, 5, 1, &[0b1010_0001]);
    assert_eq!(flag, 0);
    assert_eq!(lit(&video), vec![(10, 5), (12, 5), (17, 5)]);
}

#[test]
fn draw_puts_rows_below_each_other() {
    let mut video = Video::new(64, 32);
    let flag = video.draw(0, 0, 3, &[0x80, 0x40, 0x20]);
    assert_eq!(flag, 0);
    assert_eq!(lit(&video), vec![(0, 0), (1, 1), (2, 2)]);
}

#[test]
fn draw_uses_only_the_first_n_rows() {
    let mut video = Video::new(64, 32);
    let flag = video.draw(0, 0, 1, &[0x80, 0x80, 0x80]);
    assert_eq!(flag, 0);
    assert_eq!(lit(&video), vec![(0, 0)]);
}

#[test]
fn draw_with_more_rows_asked_than_given_uses_what_is_there() {
    let mut video = Video::new(64, 32);
    let flag = video.draw(0, 0, 5, &[0x80, 0x80]);
    assert_eq!(flag, 0);
    assert_eq!(lit(&video), vec![(0, 0), (0, 1)]);
}

#[test]
fn draw_of_no_rows_changes_nothing() {
    let mut video = Video::new(64, 32);
    video.draw(3, 3, 1, &[0xFF]);
    let before = lit(&video);
    assert_eq!(video.draw(3, 3, 0, &[0xFF]), 0);
    assert_eq!(video.draw(3, 3, 4, &[]), 0);
    assert_eq!(lit(&video), before);
}

#[test]
fn draw_clips_at_the_right_edge() {
    let mut video = Video::new(64, 32);
    let flag = video.draw(60, 0, 1, &[0xFF]);
    assert_eq!(flag, 0);
    assert_eq!(lit(&video), vec![(60, 0), (61, 0), (62, 0), (63, 0)]);
}

#[test]
fn draw_clips_at_the_bottom_edge() {
    let mut video = Video::new(64, 32);
    let flag = video.draw(0, 30, 4, &[0x80, 0x80, 0x80, 0x80]);
    assert_eq!(flag, 0);
    assert_eq!(lit(&video), vec![(0, 30), (0, 31)]);
}

#[test]
fn draw_outside_the_grid_changes_nothing() {
    let mut video = Video::new(64, 32);
    assert_eq!(video.draw(64, 0, 1, &[0xFF]), 0);
    assert_eq!(video.draw(0, 32, 1, &[0xFF]), 0);
    assert_eq!(video.draw(usize::MAX, usize::MAX, 15, &[0xFF; 15]), 0);
    assert_eq!(lit(&video), vec![]);
}

#[test]
fn draw_reports_a_collision_and_erases() {
    let mut video = Video::new(64, 32);
    assert_eq!(video.draw(0, 0, 1, &[0b1100_0000]), 0);
    assert_eq!(video.draw(1, 0, 1, &[0b1100_0000]), 1);
    assert_eq!(lit(&video), vec![(0, 0), (2, 0)]);
}

#[test]
fn draw_beside_lit_pixels_reports_no_collision() {
    let mut video = Video::new(64, 32);
    assert_eq!(video.draw(0, 0, 1, &[0b1000_0000]), 0);
    assert_eq!(video.draw(0, 0, 1, &[0b0100_0000]), 0);
    assert_eq!(lit(&video), vec![(0, 0), (1, 0)]);
}

#[test]
fn collision_in_a_clipped_part_is_not_reported() {
    let mut video = Video::new(64, 32);
    assert_eq!(video.draw(63, 31, 2, &[0xFF, 0xFF]), 0);
    assert_eq!(lit(&video), vec![(63, 31)]);
    assert_eq!(video.draw(63, 31, 2, &[0x7F, 0xFF]), 0);
    assert_eq!(lit(&video), vec![(63, 31)]);
}

#[test]
fn drawing_twice_restores_the_grid_and_collides() {
    let sprite = [0xF0, 0x90, 0x90, 0x90, 0xF0];
    let mut video = Video::new(64, 32);
    video.draw(20, 10, 2, &[0x3C, 0xC3]);
    let before = lit(&video);
    assert_eq!(video.draw(22, 9, 5, &sprite), 1);
    assert_ne!(lit(&video), before);
    assert_eq!(video.draw(22, 9, 5, &sprite), 1);
    assert_eq!(lit(&video), before);
}

#[test]
fn drawing_twice_on_a_blank_grid_collides_the_second_time() {
    for x in 0..64usize {
        for y in 0..32usize {
            let mut video = Video::new(64, 32);
            assert_eq!(video.draw(x, y, 1, &[0x80]), 0);
            assert_eq!(lit(&video), vec![(x, y)]);
            assert_eq!(video.draw(x, y, 1, &[0x80]), 1);
            assert_eq!(lit(&video), vec![]);
        }
    }
}

#[test]
fn drawing_twice_over_lit_pixels_only_collides_the_first_time() {
    let mut video = Video::new(64, 32);
    assert_eq!(video.draw(0, 0, 1, &[0x80]), 0);
    assert_eq!(video.draw(0, 0, 1, &[0x80]), 1);
    assert_eq!(lit(&video), vec![]);
    let mut video = Video::new(64, 32);
    video.draw(0, 0, 1, &[0xC0]);
    assert_eq!(video.draw(0, 0, 1, &[0x80]), 1);
    assert_eq!(video.draw(0, 0, 1, &[0x80]), 0);
    assert_eq!(lit(&video), vec![(0, 0), (1, 0)]);
}

#[test]
fn clear_turns_every_pixel_off() {
    let mut video = Video::new(64, 32);
    video.draw(0, 0, 2, &[0xFF, 0xFF]);
    video.draw(56, 30, 2, &[0xFF, 0xFF]);
    assert_eq!(lit(&video).len(), 32);
    video.clear();
    assert_eq!(lit(&video), vec![]);
    assert_eq!(video.width(), 64);
    assert_eq!(video.height(), 32);
    assert_eq!(video.get_grid().len(), 64);
    assert_eq!(video.get_grid()[63].len(), 32);
}
