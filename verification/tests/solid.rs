use ledbetter::{PixelAnimation, PixelAnimationGlobal, PixelLocation, RuntimeError, Solid, SolidParams};

fn frame(runtime: &mut PixelAnimationGlobal<Solid>, n_strips: usize) -> Vec<Vec<u32>> {
    (0..n_strips).map(|s| runtime.pixels(s).unwrap().to_vec()).collect()
}

#[test]
fn the_default_colour_is_black() {
    let params = SolidParams::default();
    assert_eq!((params.red, params.green, params.blue), (0, 0, 0));
    assert_eq!(params.color(), 0);
}

#[test]
fn the_colour_packs_red_green_and_blue() {
    assert_eq!(SolidParams { red: 0x12, green: 0x34, blue: 0x56 }.color(), 0x0012_3456);
    assert_eq!(SolidParams { red: 255, green: 0, blue: 0 }.color(), 0x00FF_0000);
    assert_eq!(SolidParams { red: 0, green: 255, blue: 0 }.color(), 0x0000_FF00);
    assert_eq!(SolidParams { red: 0, green: 0, blue: 255 }.color(), 0x0000_00FF);
    assert_eq!(SolidParams { red: 1, green: 2, blue: 3 }.color(), 66051);
}

#[test]
fn a_channel_above_255_counts_as_255() {
    assert_eq!(SolidParams { red: 256, green: 0, blue: 0 }.color(), 0x00FF_0000);
    assert_eq!(SolidParams { red: 0, green: 1000, blue: 7 }.color(), 0x0000_FF07);
    assert_eq!(SolidParams { red: u32::MAX, green: u32::MAX, blue: u32::MAX }.color(), 0x00FF_FFFF);
}

#[test]
fn render_fills_every_slot_and_keeps_the_shape() {
    let animation = Solid::new(&SolidParams::default(), vec![vec![PixelLocation::default()]]);
    let mut pixels = vec![vec![9, 9, 9], vec![], vec![9]];
    animation.render(&SolidParams { red: 1, green: 1, blue: 1 }, &mut pixels);
    assert_eq!(pixels, vec![vec![0x010101, 0x010101, 0x010101], vec![], vec![0x010101]]);
    let mut none: Vec<Vec<u32>> = Vec::new();
    animation.render(&SolidParams::default(), &mut none);
    assert!(none.is_empty());
}

#[test]
fn a_solid_runtime_shows_the_colour_of_its_record() {
    let mut runtime: PixelAnimationGlobal<Solid> = PixelAnimationGlobal::new();
    assert_eq!(runtime.init_layout_set_num_strips(2), Ok(()));
    assert_eq!(runtime.init_layout_set_strip_len(0, 2), Ok(()));
    assert_eq!(runtime.init_layout_set_strip_len(1, 1), Ok(()));
    runtime.set_param_green(0x80);
    assert_eq!(runtime.init_layout_done(), Ok(()));
    assert_eq!(frame(&mut runtime, 2), vec![vec![0, 0], vec![0]]);
    assert_eq!(runtime.tick(), Ok(()));
    assert_eq!(frame(&mut runtime, 2), vec![vec![0x8000, 0x8000], vec![0x8000]]);
    runtime.set_param_red(0xFF);
    runtime.set_param_blue(300);
    assert_eq!(frame(&mut runtime, 2), vec![vec![0x8000, 0x8000], vec![0x8000]]);
    assert_eq!(runtime.tick(), Ok(()));
    assert_eq!(frame(&mut runtime, 2), vec![vec![0xFF80FF, 0xFF80FF], vec![0xFF80FF]]);
    assert_eq!(runtime.get_pixel_val(1, 1), Err(RuntimeError::IndexOutOfRange));
}

#[test]
fn fields_of_a_fresh_solid_runtime_read_as_zero() {
    let mut runtime: PixelAnimationGlobal<Solid> = PixelAnimationGlobal::new();
    assert_eq!(runtime.get_param_red(), 0);
    assert_eq!(runtime.get_param_green(), 0);
    assert_eq!(runtime.get_param_blue(), 0);
    assert!(runtime.0.is_some());
    assert_eq!(runtime.tick(), Err(RuntimeError::ProtocolViolation));
}

#[test]
fn writing_one_channel_leaves_the_other_two() {
    let mut runtime: PixelAnimationGlobal<Solid> = PixelAnimationGlobal::new();
    runtime.set_param_red(42);
    assert_eq!(runtime.get_param_red(), 42);
    assert_eq!(runtime.get_param_green(), 0);
    assert_eq!(runtime.get_param_blue(), 0);
    runtime.set_param_blue(7);
    assert_eq!(runtime.get_param_red(), 42);
    assert_eq!(runtime.get_param_green(), 0);
    assert_eq!(runtime.get_param_blue(), 7);
    assert_eq!(runtime.init_layout_done(), Ok(()));
    runtime.set_param_green(u32::MAX);
    assert_eq!(runtime.get_param_red(), 42);
    assert_eq!(runtime.get_param_green(), u32::MAX);
    assert_eq!(runtime.get_param_blue(), 7);
}
