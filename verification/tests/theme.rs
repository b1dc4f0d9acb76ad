//! Themes out of pictures, with the real decoders and quantizer.

use std::io::Cursor;

use image::{DynamicImage, GrayImage, ImageFormat, Luma, Rgb, RgbImage, Rgba, RgbaImage};
use vibepanel::sourced_theme::theme_from_source_color;
use vibepanel::wallpaper::MAX_WALLPAPER_FILE_SIZE;
use vibepanel::wallpaper_theme::{
    best_of, image_colors, opaque_pixels, retain_vivid, source_color, theme_of_colors,
    wallpaper_size_allowed, Argb, Picture, Samples,
};

fn eight(picture: DynamicImage) -> Picture {
    let (width, height) = (picture.width(), picture.height());
    Picture { width, height, samples: Samples::Eight(picture.to_rgba8().into_raw()) }
}

fn plain(red: u8, green: u8, blue: u8) -> Picture {
    eight(DynamicImage::ImageRgb8(RgbImage::from_pixel(8, 5, Rgb([red, green, blue]))))
}

#[test]
fn pictures_are_scaled_to_a_square() {
    let colors = image_colors(plain(200, 30, 40)).expect("a picture");
    assert_eq!(colors.pixels.len(), 112 * 112);
    assert!(colors.pixels.iter().all(|p| *p == Argb { alpha: 255, red: 200, green: 30, blue: 40 }));
    assert_eq!(colors.counts.len(), 1);
    assert_eq!(colors.counts[0].1, 112 * 112);
}

#[test]
fn pictures_are_averaged_when_they_shrink() {
    // Columns of black and white, each a pixel wide.
    let samples = (0..224 * 224)
        .flat_map(|i| if i % 2 == 0 { [0, 0, 0, 255] } else { [255, 255, 255, 255] })
        .collect();
    let picture = Picture { width: 224, height: 224, samples: Samples::Eight(samples) };
    let colors = image_colors(picture).expect("a picture");
    assert_eq!(colors.pixels.len(), 112 * 112);
    assert!(colors.pixels.iter().all(|p| p.red > 60 && p.red < 200 && p.red == p.blue));
}

#[test]
fn decoded_files_are_looked_at_too() {
    let mut buf = Cursor::new(Vec::new());
    DynamicImage::ImageRgb8(RgbImage::from_pixel(8, 5, Rgb([9, 200, 7])))
        .write_to(&mut buf, ImageFormat::Png)
        .expect("the picture is encoded");
    let decoded = image::load_from_memory(&buf.into_inner()).expect("the picture is decoded");
    let colors = image_colors(eight(decoded)).expect("a picture");
    assert!(colors.pixels.iter().all(|p| *p == Argb { alpha: 255, red: 9, green: 200, blue: 7 }));
}

#[test]
fn deep_pictures_lose_their_low_bits() {
    let samples = [0x1234u16, 0xabcd, 0x00ff, 0xffff].repeat(6);
    let picture = Picture { width: 3, height: 2, samples: Samples::Sixteen(samples) };
    let colors = image_colors(picture).expect("a picture");
    assert_eq!(colors.pixels.len(), 112 * 112);
    let first = colors.pixels[0];
    assert_eq!((first.alpha, first.red, first.green, first.blue), (255, 0x12, 0xab, 1));
}

#[test]
fn a_picture_that_lacks_samples_is_refused() {
    let picture = Picture { width: 2, height: 2, samples: Samples::Eight(vec![1; 15]) };
    assert!(image_colors(picture).is_none());
    let picture = Picture { width: 2, height: 2, samples: Samples::Sixteen(vec![1; 15]) };
    assert!(image_colors(picture).is_none());
    let picture = Picture { width: 2, height: 2, samples: Samples::Eight(vec![255; 16]) };
    assert!(image_colors(picture).is_some());
    let nothing = Picture { width: 0, height: 0, samples: Samples::Eight(Vec::new()) };
    assert!(image_colors(nothing).expect("a picture").pixels.is_empty());
}

#[test]
fn transparent_pixels_are_left_out() {
    let mut picture = RgbaImage::from_pixel(112, 112, Rgba([10, 20, 30, 255]));
    for x in 0..112 {
        for y in 0..56 {
            picture.put_pixel(x, y, Rgba([200, 200, 200, 0]));
        }
    }
    let colors = image_colors(eight(DynamicImage::ImageRgba8(picture))).expect("a picture");
    assert!(colors.pixels.len() < 112 * 112);
    assert!(!colors.pixels.is_empty());
    assert!(colors.pixels.iter().all(|p| p.alpha == 255));
}

#[test]
fn a_transparent_picture_has_no_colors() {
    let picture = RgbaImage::from_pixel(4, 4, Rgba([10, 20, 30, 0]));
    let colors = image_colors(eight(DynamicImage::ImageRgba8(picture))).expect("a picture");
    assert!(colors.pixels.is_empty());
    assert!(colors.counts.is_empty());
    assert!(theme_of_colors(&colors, &Vec::new()).is_none());
}

#[test]
fn a_gray_picture_keeps_its_pixels_and_has_no_theme() {
    let picture = GrayImage::from_pixel(4, 4, Luma([128u8]));
    let colors = image_colors(eight(DynamicImage::ImageLuma8(picture))).expect("a picture");
    assert_eq!(colors.pixels.len(), 112 * 112);
    assert!(colors.pixels.iter().all(|p| p.red == 128 && p.green == 128 && p.blue == 128));
    let vivid = vec![false; colors.counts.len()];
    assert!(theme_of_colors(&colors, &vivid).is_none());
}

#[test]
fn a_vivid_picture_has_a_theme_of_its_color() {
    let colors = image_colors(plain(0, 0, 255)).expect("a picture");
    let vivid = vec![true; colors.counts.len()];
    let made = theme_of_colors(&colors, &vivid).expect("a theme");
    let (source, theme) = (made.source(), made.theme());
    assert_eq!(Some(source), source_color(&colors.counts, &vivid));
    assert!(source.blue > source.red && source.blue > source.green);
    assert_eq!(theme.source.blue, source.blue);
    let again = theme_from_source_color(source);
    assert_eq!(again.theme().schemes.light.primary, theme.schemes.light.primary);
    assert_eq!(again.theme().schemes.dark.primary, theme.schemes.dark.primary);
}

#[test]
fn other_sources_make_other_themes() {
    let blue = theme_from_source_color(Argb { alpha: 255, red: 0, green: 0, blue: 255 });
    let red = theme_from_source_color(Argb { alpha: 255, red: 255, green: 0, blue: 0 });
    assert_ne!(blue.theme().schemes.light.primary, red.theme().schemes.light.primary);
    assert_eq!(blue.source(), Argb { alpha: 255, red: 0, green: 0, blue: 255 });
}

#[test]
fn only_vivid_colors_are_kept_in_order() {
    let color = |red: u8| Argb { alpha: 255, red, green: 0, blue: 0 };
    let counts = vec![(color(1), 5), (color(2), 6), (color(3), 7)];
    assert_eq!(
        retain_vivid(&counts, &vec![true, false, true]),
        vec![(color(1), 5), (color(3), 7)]
    );
    assert_eq!(retain_vivid(&counts, &vec![true]), vec![(color(1), 5)]);
    assert_eq!(source_color(&counts, &vec![false, false, false]), None);
}

#[test]
fn opaque_pixels_keep_their_order() {
    let pixels = vec![(1, 2, 3, 255), (4, 5, 6, 254), (7, 8, 9, 255)];
    assert_eq!(
        opaque_pixels(&pixels),
        vec![
            Argb { alpha: 255, red: 1, green: 2, blue: 3 },
            Argb { alpha: 255, red: 7, green: 8, blue: 9 },
        ]
    );
}

#[test]
fn large_files_are_not_read() {
    assert!(wallpaper_size_allowed(MAX_WALLPAPER_FILE_SIZE));
    assert!(!wallpaper_size_allowed(MAX_WALLPAPER_FILE_SIZE + 1));
}

#[test]
fn the_source_is_a_given_color_or_the_fallback() {
    let blue = Argb { alpha: 255, red: 0, green: 0, blue: 255 };
    let gray = Argb { alpha: 255, red: 128, green: 128, blue: 128 };
    assert_eq!(source_color(&vec![(gray, 9), (blue, 3)], &vec![true, true]), Some(blue));
    let fallback = Argb { alpha: 255, red: 66, green: 133, blue: 244 };
    assert_eq!(source_color(&vec![(gray, 9)], &vec![true]), Some(fallback));
}

#[test]
fn counted_colors_are_opaque_and_distinct() {
    let mut picture = RgbImage::from_pixel(112, 112, Rgb([250, 10, 10]));
    for x in 0..112 {
        for y in 0..40 {
            picture.put_pixel(x, y, Rgb([10, 10, 250]));
        }
    }
    let colors = image_colors(eight(DynamicImage::ImageRgb8(picture))).expect("a picture");
    assert!(colors.counts.len() >= 2);
    assert!(colors.counts.iter().all(|(c, n)| c.alpha == 255 && *n > 0));
    for (i, (c, _)) in colors.counts.iter().enumerate() {
        assert!(colors.counts.iter().skip(i + 1).all(|(d, _)| d != c));
    }
    assert!(colors.counts.iter().map(|(_, n)| *n as usize).sum::<usize>() <= colors.pixels.len());
}

#[test]
fn the_first_of_the_ranked_is_the_best() {
    let color = |red: u8| Argb { alpha: 255, red, green: 0, blue: 0 };
    assert_eq!(best_of(&vec![color(3), color(1)]), Some(color(3)));
    assert_eq!(best_of(&Vec::new()), None);
}
