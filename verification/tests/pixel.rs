use easy_graph::pixel::{PixelSurface, SaveError, SaveFormat};

#[test]
fn packing_formula_exact() {
    // Byte triple (10, 20, 30) packs to 10<<16 | 20<<8 | 30, exactly.
    assert_eq!(PixelSurface::from_u8_rgb(10, 20, 30), (10 << 16) | (20 << 8) | 30);
    assert_eq!(PixelSurface::from_u8arr_rgb(&[10, 20, 30]), 0x000A141E);
    assert_eq!(PixelSurface::from_u8_rgb(255, 255, 255), 0x00FFFFFF);
    assert_eq!(PixelSurface::from_u8_rgb(0, 0, 0), 0);
}

#[test]
fn pack_reencodes_every_pixel() {
    let mut s = PixelSurface::new(2, 1, None);
    s.buffer_u8 = vec![10, 20, 30, 40, 50, 60];
    s.pack();
    assert_eq!(s.buffer_u32, vec![0x000A141E, 0x0028323C]);
}

#[test]
fn scoped_draw_draws_when_open_and_admitted() {
    let mut s = PixelSurface::new(1, 1, None);
    let drawn = s.scoped_draw(true, 0, |mut buf| {
        buf[0] = 10;
        buf[1] = 20;
        buf[2] = 30;
        buf
    });
    assert!(drawn);
    assert_eq!(s.buffer_u8, vec![10, 20, 30]);
    assert_eq!(s.buffer_u32, vec![0x000A141E]);
}

#[test]
fn scoped_draw_noop_when_closed() {
    let mut s = PixelSurface::new(1, 1, None);
    let mut called = false;
    let drawn = s.scoped_draw(false, 0, |buf| {
        called = true;
        buf
    });
    assert!(!drawn);
    assert!(!called);
    assert_eq!(s.buffer_u8, vec![0, 0, 0]);
    assert_eq!(s.buffer_u32, vec![0]);
}

#[test]
fn scoped_draw_noop_when_gate_rejects() {
    let mut s = PixelSurface::new(1, 1, Some(1000));
    assert!(s.scoped_draw(true, 0, |mut buf| {
        buf[0] = 1;
        buf
    }));
    let mut called = false;
    let drawn = s.scoped_draw(true, 500, |buf| {
        called = true;
        buf
    });
    assert!(!drawn);
    assert!(!called);
    assert_eq!(s.buffer_u8, vec![1, 0, 0]);
    // A whole interval later the frame is admitted again.
    assert!(s.scoped_draw(true, 1000, |buf| buf));
}

#[test]
fn save_format_recognized_extensions() {
    assert_eq!(easy_graph::pixel::save_format_for_path(b"plot.png"), Ok(SaveFormat::Png));
    assert_eq!(easy_graph::pixel::save_format_for_path(b"a.jpg"), Ok(SaveFormat::Jpeg));
    assert_eq!(easy_graph::pixel::save_format_for_path(b"a.jpeg"), Ok(SaveFormat::Jpeg));
    assert_eq!(easy_graph::pixel::save_format_for_path(b"a.ico"), Ok(SaveFormat::Ico));
    assert_eq!(easy_graph::pixel::save_format_for_path(b"a.pnm"), Ok(SaveFormat::Pnm));
    assert_eq!(easy_graph::pixel::save_format_for_path(b"a.ppm"), Ok(SaveFormat::Pnm));
    assert_eq!(easy_graph::pixel::save_format_for_path(b"a.bmp"), Ok(SaveFormat::Bmp));
    assert_eq!(easy_graph::pixel::save_format_for_path(b"a.tif"), Ok(SaveFormat::Tiff));
    assert_eq!(easy_graph::pixel::save_format_for_path(b"a.tiff"), Ok(SaveFormat::Tiff));
}

#[test]
fn save_format_ignores_letter_case_and_earlier_dots() {
    assert_eq!(easy_graph::pixel::save_format_for_path(b"shot.v2.PNG"), Ok(SaveFormat::Png));
    assert_eq!(easy_graph::pixel::save_format_for_path(b"A.TiFf"), Ok(SaveFormat::Tiff));
}

#[test]
fn save_format_unsupported_is_rejected() {
    assert_eq!(
        easy_graph::pixel::save_format_for_path(b"plot.gif"),
        Err(SaveError::UnsupportedFormat)
    );
    assert_eq!(
        easy_graph::pixel::save_format_for_path(b"no_extension"),
        Err(SaveError::UnsupportedFormat)
    );
    assert_eq!(
        easy_graph::pixel::save_format_for_path(b"trailing."),
        Err(SaveError::UnsupportedFormat)
    );
}

#[test]
fn surface_new_is_zeroed() {
    let s = PixelSurface::new(2, 2, None);
    assert_eq!(s.size(), (2, 2));
    assert_eq!(s.buffer_u8.len(), 12);
    assert_eq!(s.buffer_u32.len(), 4);
    assert!(s.buffer_u8.iter().all(|&b| b == 0));
    assert!(s.buffer_u32.iter().all(|&w| w == 0));
}
