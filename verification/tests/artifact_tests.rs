use snaplate::artifact::desktop_filename;
use snaplate::artifact::make_image_data_url;
use snaplate::capture::crop_rgba;
use snaplate::capture::CaptureRegion;

#[test]
fn the_data_url_inlines_the_real_base64_rendering() {
    // base64 of [0, 1, 2] is "AAEC"; a wrapper that handed the bytes back
    // unchanged could not produce it.
    let url = make_image_data_url(&[0u8, 1, 2]);
    assert_eq!(url, "data:image/png;base64,AAEC");
}

#[test]
fn the_data_url_pads_to_four_character_groups() {
    let url = make_image_data_url(b"M");
    assert_eq!(url, "data:image/png;base64,TQ==");
    let empty = make_image_data_url(b"");
    assert_eq!(empty, "data:image/png;base64,");
}

#[test]
fn desktop_filenames_carry_the_timestamp_in_decimal() {
    assert_eq!(desktop_filename(1700000000), b"screenshot-1700000000.png".to_vec());
    assert_eq!(desktop_filename(0), b"screenshot-0.png".to_vec());
    assert_eq!(desktop_filename(7), b"screenshot-7.png".to_vec());
    assert_eq!(
        desktop_filename(u64::MAX),
        format!("screenshot-{}.png", u64::MAX).into_bytes()
    );
}

#[test]
fn cropping_picks_the_selected_pixels() {
    // A 3x2 frame whose pixel (x, y) has red byte 10*y + x.
    let mut frame: Vec<u8> = Vec::new();
    for y in 0..2u8 {
        for x in 0..3u8 {
            frame.extend_from_slice(&[10 * y + x, 0, 0, 255]);
        }
    }
    let region = CaptureRegion { x: 1, y: 1, width: 2, height: 1 };
    let cropped = crop_rgba(&frame, 3, 2, region).expect("region fits");
    assert_eq!(cropped, vec![11, 0, 0, 255, 12, 0, 0, 255]);
}

#[test]
fn cropping_rejects_regions_that_leave_the_frame() {
    let frame = vec![0u8; 3 * 2 * 4];
    assert!(crop_rgba(&frame, 3, 2, CaptureRegion { x: 2, y: 0, width: 2, height: 1 }).is_err());
    assert!(crop_rgba(&frame, 3, 2, CaptureRegion { x: -1, y: 0, width: 1, height: 1 }).is_err());
    assert!(crop_rgba(&frame, 3, 2, CaptureRegion { x: 0, y: 0, width: 0, height: 1 }).is_err());
    // A buffer that does not match the frame size is refused too.
    assert!(crop_rgba(&frame[1..], 3, 2, CaptureRegion { x: 0, y: 0, width: 1, height: 1 }).is_err());
}
