use wgpu_web::surface::canvas_selector;

#[test]
fn selector_names_the_canvas_by_its_handle_id() {
    assert_eq!(canvas_selector(0), "[data-raw-handle=\"0\"]");
    assert_eq!(canvas_selector(7), "[data-raw-handle=\"7\"]");
    assert_eq!(canvas_selector(42), "[data-raw-handle=\"42\"]");
    assert_eq!(canvas_selector(1000), "[data-raw-handle=\"1000\"]");
    assert_eq!(canvas_selector(u32::MAX), "[data-raw-handle=\"4294967295\"]");
}
