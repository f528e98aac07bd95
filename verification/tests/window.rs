use qoi_decoder::encoding::window::{Window, EOF_MARKER, WINDOW_LEN};

#[test]
fn new_window_is_empty() {
    let window = Window::new();
    assert_eq!(window.len(), 0);
    assert_eq!(window.front(), None);
    assert_eq!(window.get(0), None);
    assert!(!window.is_end_marker());
}

#[test]
fn window_keeps_bytes_in_order() {
    let mut window = Window::new();
    assert_eq!(window.push_back(10), None);
    assert_eq!(window.push_back(20), None);
    assert_eq!(window.push_back(30), None);
    assert_eq!(window.len(), 3);
    assert_eq!(window.front(), Some(10));
    assert_eq!(window.get(0), Some(10));
    assert_eq!(window.get(1), Some(20));
    assert_eq!(window.get(2), Some(30));
    assert_eq!(window.get(3), None);
}

#[test]
fn full_window_drops_its_oldest_byte() {
    let mut window = Window::new();
    for byte in 1..=8u8 {
        assert_eq!(window.push_back(byte), None);
    }
    assert_eq!(window.len(), WINDOW_LEN);
    assert_eq!(window.push_back(9), Some(1));
    assert_eq!(window.len(), WINDOW_LEN);
    assert_eq!(window.front(), Some(2));
    assert_eq!(window.get(7), Some(9));
    assert_eq!(window.push_back(10), Some(2));
    assert_eq!(window.front(), Some(3));
    for i in 0..8 {
        assert_eq!(window.get(i), Some(3 + i as u8));
    }
    assert_eq!(window.get(8), None);
}

#[test]
fn clear_empties_the_window() {
    let mut window = Window::new();
    window.push_back(1);
    window.push_back(2);
    window.clear();
    assert_eq!(window.len(), 0);
    assert_eq!(window.front(), None);
    assert_eq!(window.push_back(3), None);
    assert_eq!(window.front(), Some(3));
}

#[test]
fn extend_back_slides_the_window() {
    let mut window = Window::new();
    window.extend_back(&vec![1, 2, 3]);
    assert_eq!(window.len(), 3);
    assert_eq!(window.front(), Some(1));
    window.extend_back(&vec![4, 5, 6, 7, 8, 9, 10]);
    assert_eq!(window.len(), 8);
    for i in 0..8 {
        assert_eq!(window.get(i), Some(3 + i as u8));
    }
    window.extend_back(&Vec::new());
    assert_eq!(window.front(), Some(3));
    window.extend_back(&(100..120).collect::<Vec<u8>>());
    for i in 0..8 {
        assert_eq!(window.get(i), Some(112 + i as u8));
    }
}

#[test]
fn end_marker_is_seven_zeros_and_a_one() {
    assert_eq!(EOF_MARKER, [0, 0, 0, 0, 0, 0, 0, 1]);
    let mut window = Window::new();
    window.extend_back(&EOF_MARKER.to_vec());
    assert!(window.is_end_marker());
}

#[test]
fn window_detects_the_end_marker_only_when_it_is_all_it_holds() {
    let mut window = Window::new();
    window.extend_back(&vec![0, 0, 0, 0, 0, 0, 1]);
    assert!(!window.is_end_marker());
    window.clear();
    window.extend_back(&vec![0, 0, 0, 0, 0, 0, 0, 0]);
    assert!(!window.is_end_marker());
    assert_eq!(window.push_back(1), Some(0));
    assert!(window.is_end_marker());
    assert_eq!(window.push_back(0), Some(0));
    assert!(!window.is_end_marker());
    window.clear();
    window.extend_back(&vec![1, 0, 0, 0, 0, 0, 0, 1]);
    assert!(!window.is_end_marker());
    window.clear();
    window.extend_back(&vec![0, 0, 0, 0, 0, 0, 0, 2]);
    assert!(!window.is_end_marker());
}
