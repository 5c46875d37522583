use wl_decor::buffer::BufferError;
use wl_decor::frame::{DiagOrientation, Dir, Orientation, XdgWindowBorder, XdgWindowFrame, BORDER_FILL};

#[test]
fn corner_vectors() {
    assert_eq!(DiagOrientation::TopLeft.vector(), [0, 0]);
    assert_eq!(DiagOrientation::TopRight.vector(), [1, 0]);
    assert_eq!(DiagOrientation::BottomLeft.vector(), [0, 1]);
    assert_eq!(DiagOrientation::BottomRight.vector(), [1, 1]);
}

#[test]
fn edge_vectors_in_halves() {
    assert_eq!(Orientation::Top.vector(), [1, 0]);
    assert_eq!(Orientation::Left.vector(), [0, 1]);
    assert_eq!(Orientation::Right.vector(), [2, 1]);
    assert_eq!(Orientation::Bottom.vector(), [1, 2]);
}

#[test]
fn translate_coords_of_corners_and_edges() {
    assert_eq!(Dir::Diagonal(DiagOrientation::TopRight).translate_coords([400, 300]), [400, 0]);
    assert_eq!(Dir::Diagonal(DiagOrientation::BottomRight).translate_coords([400, 300]), [400, 300]);
    assert_eq!(Dir::Cardinal(Orientation::Top).translate_coords([401, 300]), [200, 0]);
    assert_eq!(Dir::Cardinal(Orientation::Right).translate_coords([401, 301]), [401, 150]);
    assert_eq!(Dir::Cardinal(Orientation::Bottom).translate_coords([-3, 7]), [-1, 7]);
}

#[test]
fn new_frame_has_four_corners_at_origin() {
    let f = XdgWindowFrame::new(40);
    let dirs = [
        DiagOrientation::TopLeft,
        DiagOrientation::TopRight,
        DiagOrientation::BottomLeft,
        DiagOrientation::BottomRight,
    ];
    for i in 0..4 {
        let c = f.corner(i);
        assert_eq!(c.pos, (0, 0));
        assert_eq!(c.size, (40, 40));
        assert_eq!(c.dir, Dir::Diagonal(dirs[i]));
    }
}

#[test]
fn layout_centres_corners_on_parent_corners() {
    let mut f = XdgWindowFrame::new(40);
    f.move_(200, 150);
    let pos: Vec<(i32, i32)> = (0..4).map(|i| f.corner(i).pos).collect();
    assert_eq!(pos, vec![(-20, -20), (180, -20), (-20, 130), (180, 130)]);
    for i in 0..4 {
        for j in 0..4 {
            if i != j {
                assert_ne!(pos[i], pos[j]);
            }
        }
    }
}

#[test]
fn layout_with_odd_padding_rounds_half_down() {
    let mut f = XdgWindowFrame::new(5);
    f.move_(10, 20);
    assert_eq!(f.corner(0).pos, (-2, -2));
    assert_eq!(f.corner(3).pos, (8, 18));
}

#[test]
fn layout_twice_gives_same_positions() {
    let mut f = XdgWindowFrame::new(40);
    f.move_(640, 480);
    let first: Vec<(i32, i32)> = (0..4).map(|i| f.corner(i).pos).collect();
    f.move_(640, 480);
    let second: Vec<(i32, i32)> = (0..4).map(|i| f.corner(i).pos).collect();
    assert_eq!(first, second);
}

#[test]
fn layout_has_no_residue_of_earlier_size() {
    let mut a = XdgWindowFrame::new(40);
    a.move_(200, 150);
    a.move_(400, 300);
    let mut b = XdgWindowFrame::new(40);
    b.move_(400, 300);
    for i in 0..4 {
        assert_eq!(a.corner(i).pos, b.corner(i).pos);
    }
}

#[test]
fn frame_resize_reports_change() {
    let mut f = XdgWindowFrame::new(40);
    assert!(!f.resize(40));
    assert!(f.resize(30));
    assert_eq!(f.padding, 30);
    assert_eq!(f.corner(2).size, (30, 30));
    f.move_(100, 100);
    assert_eq!(f.corner(0).pos, (-15, -15));
}

#[test]
fn border_move_and_resize() {
    let mut b = XdgWindowBorder::new((0, 0), (10, 10), Dir::Cardinal(Orientation::Left));
    b.move_(3, -4);
    assert_eq!(b.pos, (3, -4));
    assert!(b.resize(10, 10).is_none());
    let drawn = b.resize(10, 12).unwrap().unwrap();
    assert_eq!(drawn.width, 10);
    assert_eq!(drawn.height, 12);
    assert_eq!(drawn.data.len(), 10 * 12 * 4);
    assert!(drawn.data.iter().all(|&x| x == BORDER_FILL));
    assert_eq!(b.size, (10, 12));
    assert_eq!(b.pos, (3, -4));
}

#[test]
fn border_render_fills_its_size() {
    let b = XdgWindowBorder::new((0, 0), (40, 40), Dir::Diagonal(DiagOrientation::TopLeft));
    let buf = b.render().unwrap();
    assert_eq!(buf.data.len(), 40 * 40 * 4);
    assert!(buf.data.iter().all(|&x| x == 0xff));
    let empty = XdgWindowBorder::new((0, 0), (0, 40), Dir::Diagonal(DiagOrientation::TopLeft));
    assert_eq!(empty.render().err(), Some(BufferError::EmptySize));
    let huge = XdgWindowBorder::new((0, 0), (u32::MAX, 1), Dir::Diagonal(DiagOrientation::TopLeft));
    assert_eq!(huge.render().err(), Some(BufferError::TooLarge));
    let mut b2 = XdgWindowBorder::new((0, 0), (4, 4), Dir::Diagonal(DiagOrientation::TopLeft));
    assert_eq!(b2.resize(0x8000_0000, 0).unwrap().err(), Some(BufferError::EmptySize));
}

#[test]
fn failed_border_resize_keeps_old_size() {
    let mut b = XdgWindowBorder::new((1, 2), (4, 4), Dir::Diagonal(DiagOrientation::TopLeft));
    assert_eq!(b.resize(40_000, 40_000).unwrap().err(), Some(BufferError::TooLarge));
    assert_eq!(b.size, (4, 4));
    assert_eq!(b.pos, (1, 2));
    assert_eq!(b.resize(40_000, 40_000).unwrap().err(), Some(BufferError::TooLarge));
    assert_eq!(b.resize(0, 4).unwrap().err(), Some(BufferError::EmptySize));
    assert_eq!(b.size, (4, 4));
    assert!(b.resize(4, 4).is_none());
}

#[test]
fn layout_keeps_each_element_anchor() {
    let edge = XdgWindowBorder::new((0, 0), (8, 8), Dir::Cardinal(Orientation::Top));
    let corner = XdgWindowBorder::new((0, 0), (8, 8), Dir::Diagonal(DiagOrientation::BottomRight));
    let mut f = XdgWindowFrame { padding: 8, corners: [edge, corner, edge, corner] };
    f.move_(100, 60);
    assert_eq!(f.corner(0).dir, Dir::Cardinal(Orientation::Top));
    assert_eq!(f.corner(0).pos, (46, -4));
    assert_eq!(f.corner(1).dir, Dir::Diagonal(DiagOrientation::BottomRight));
    assert_eq!(f.corner(1).pos, (96, 56));
}

#[test]
fn corner_cursor_names() {
    assert_eq!(DiagOrientation::TopLeft.cursor_name(), "top_left_corner");
    assert_eq!(DiagOrientation::TopRight.cursor_name(), "top_right_corner");
    assert_eq!(DiagOrientation::BottomLeft.cursor_name(), "bottom_left_corner");
    assert_eq!(DiagOrientation::BottomRight.cursor_name(), "bottom_right_corner");
}
