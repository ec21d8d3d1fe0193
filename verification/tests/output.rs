use pathtracer::output::{bmp_bytes, tga_bytes, Format};

/// An image in which every byte tells its place.
fn image(width: usize, height: usize) -> Vec<Vec<u8>> {
    (0..height)
        .map(|y| (0..3 * width).map(|i| (1 + y * 3 * width + i) as u8).collect())
        .collect()
}

fn le16(file: &[u8], at: usize) -> usize {
    file[at] as usize + 256 * file[at + 1] as usize
}

fn le32(file: &[u8], at: usize) -> usize {
    le16(file, at) + 65536 * le16(file, at + 2)
}

fn read_tga(file: &[u8]) -> Vec<Vec<u8>> {
    let width = le16(file, 12);
    let height = le16(file, 14);
    (0..height).map(|y| file[18 + y * 3 * width..18 + (y + 1) * 3 * width].to_vec()).collect()
}

fn read_bmp(file: &[u8]) -> Vec<Vec<u8>> {
    let width = le16(file, 18);
    let height = le16(file, 20);
    let stride = (3 * width + 3) / 4 * 4;
    (0..height).map(|y| file[26 + y * stride..26 + y * stride + 3 * width].to_vec()).collect()
}

#[test]
fn extensions_carry_their_dot() {
    assert_eq!(Format::BMP.extension(), ".bmp");
    assert_eq!(Format::TGA.extension(), ".tga");
}

#[test]
fn tga_of_one_pixel() {
    let file = tga_bytes(&[vec![30, 20, 10]]);
    assert_eq!(
        file,
        vec![0, 0, 2, 0, 0, 0, 0, 0, 0, 0, 0, 0, 1, 0, 1, 0, 24, 0, 30, 20, 10]
    );
}

#[test]
fn tga_of_two_rows() {
    let file = tga_bytes(&[vec![1, 2, 3, 4, 5, 6], vec![7, 8, 9, 10, 11, 12]]);
    assert_eq!(
        file,
        vec![
            0, 0, 2, 0, 0, 0, 0, 0, 0, 0, 0, 0, 2, 0, 2, 0, 24, 0, 1, 2, 3, 4, 5, 6, 7, 8, 9, 10,
            11, 12
        ]
    );
}

#[test]
fn tga_header_carries_wide_dimensions() {
    let file = tga_bytes(&image(300, 2));
    assert_eq!(&file[12..16], &[44, 1, 2, 0]);
    assert_eq!(file.len(), 18 + 2 * 900);
    let rows: Vec<Vec<u8>> = (0..258).map(|_| vec![9, 9, 9]).collect();
    let file = tga_bytes(&rows);
    assert_eq!(&file[12..16], &[1, 0, 2, 1]);
}

#[test]
fn bmp_of_one_pixel() {
    let file = bmp_bytes(&[vec![30, 20, 10]]);
    assert_eq!(
        file,
        vec![
            b'B', b'M', 30, 0, 0, 0, 0, 0, 0, 0, 26, 0, 0, 0, 12, 0, 0, 0, 1, 0, 1, 0, 1, 0, 24,
            0, 30, 20, 10, 0
        ]
    );
}

#[test]
fn bmp_of_two_rows_of_two_pixels() {
    let file = bmp_bytes(&[vec![1, 2, 3, 4, 5, 6], vec![7, 8, 9, 10, 11, 12]]);
    assert_eq!(
        file,
        vec![
            b'B', b'M', 42, 0, 0, 0, 0, 0, 0, 0, 26, 0, 0, 0, 12, 0, 0, 0, 2, 0, 2, 0, 1, 0, 24,
            0, 1, 2, 3, 4, 5, 6, 0, 0, 7, 8, 9, 10, 11, 12, 0, 0
        ]
    );
}

#[test]
fn bmp_rows_are_padded_to_a_multiple_of_four() {
    for (width, padding) in [(1usize, 1usize), (2, 2), (3, 3), (4, 0), (5, 1), (6, 2), (7, 3), (8, 0)] {
        let file = bmp_bytes(&image(width, 3));
        let stride = 3 * width + padding;
        assert_eq!(stride % 4, 0);
        assert!(padding < 4);
        assert_eq!(file.len(), 26 + 3 * stride, "width {width}");
        for y in 0..3 {
            let row = &file[26 + y * stride..26 + (y + 1) * stride];
            assert_eq!(&row[..3 * width], &image(width, 3)[y][..]);
            assert!(row[3 * width..].iter().all(|&byte| byte == 0));
        }
    }
}

#[test]
fn headers_carry_the_dimensions_of_the_image() {
    for width in [1usize, 2, 3, 4, 5, 17, 255, 256, 257] {
        for height in [1usize, 2, 3, 7] {
            let rows = image(width, height);
            let tga = tga_bytes(&rows);
            assert_eq!(le16(&tga, 12), width);
            assert_eq!(le16(&tga, 14), height);
            assert_eq!(tga.len(), 18 + 3 * width * height);
            let bmp = bmp_bytes(&rows);
            assert_eq!(le16(&bmp, 18), width);
            assert_eq!(le16(&bmp, 20), height);
            assert_eq!(le32(&bmp, 2), bmp.len());
            assert_eq!(bmp.len(), 26 + height * ((3 * width + 3) / 4 * 4));
            assert_eq!(le32(&bmp, 10), 26);
            assert_eq!(le32(&bmp, 14), 12);
        }
    }
}

#[test]
fn what_is_stored_is_read_back() {
    for width in [1usize, 2, 3, 4, 5, 6, 7, 31] {
        for height in [1usize, 2, 5] {
            let rows = image(width, height);
            assert_eq!(read_tga(&tga_bytes(&rows)), rows, "tga {width} x {height}");
            assert_eq!(read_bmp(&bmp_bytes(&rows)), rows, "bmp {width} x {height}");
        }
    }
}

#[test]
fn a_large_file_size_spans_all_four_bytes() {
    // 70000 rows of one pixel: 26 + 70000 * 4 = 280026 = 0x0004_45da
    let rows: Vec<Vec<u8>> = (0..70000).map(|_| vec![1, 2, 3]).collect();
    let file = bmp_bytes(&rows);
    assert_eq!(file.len(), 280026);
    assert_eq!(&file[2..6], &[0xda, 0x45, 0x04, 0x00]);
    // the height does not fit its field: 70000 modulo 65536 is 4464
    assert_eq!(le16(&file, 20), 4464);
    assert_eq!(le16(&file, 18), 1);
}

#[test]
fn the_width_is_a_third_of_the_first_row() {
    let file = tga_bytes(&[vec![1, 2, 3, 4], vec![5]]);
    assert_eq!(le16(&file, 12), 1);
    assert_eq!(le16(&file, 14), 2);
    assert_eq!(&file[18..], &[1, 2, 3, 4, 5]);
    let file = bmp_bytes(&[vec![1, 2, 3, 4], vec![5]]);
    assert_eq!(le16(&file, 18), 1);
    assert_eq!(&file[26..], &[1, 2, 3, 4, 5, 0, 0, 0]);
    assert_eq!(le32(&file, 2), 34);
    let file = tga_bytes(&[vec![]]);
    assert_eq!(file.len(), 18);
    assert_eq!(le16(&file, 12), 0);
    assert_eq!(le16(&file, 14), 1);
}
