//! The two raster containers an image can be stored in.
//!
//! An image is a sequence of rows, bottom row first, each row a flat run of
//! three bytes per pixel in the order blue, green, red. Both containers are a
//! fixed header followed by the rows; the functions here give the bytes of
//! the whole file, and leave writing them to the caller.

use vstd::prelude::*;

verus! {

/// The raster containers.
#[derive(Clone, Copy, Debug, PartialEq, Eq, Structural)]
pub enum Format {
    /// Windows bitmap with the twelve-byte core header: 26 bytes of header,
    /// rows padded to a multiple of four bytes.
    BMP,
    /// Truevision TGA, uncompressed true colour: 18 bytes of header, rows
    /// unpadded.
    TGA,
}

impl Format {
    /// The extension of a file in the container.
    pub open spec fn spec_extension(self) -> Seq<char> {
        match self {
            Format::BMP => ".bmp"@,
            Format::TGA => ".tga"@,
        }
    }

    /// The extension of a file in the container, with its dot.
    pub fn extension(self) -> (ext: &'static str)
        ensures
            ext@ == self.spec_extension(),
    {
        match self {
            Format::BMP => ".bmp",
            Format::TGA => ".tga",
        }
    }
}

/// The rows of an image as sequences of bytes.
pub open spec fn rows_of(image_data: Seq<Vec<u8>>) -> Seq<Seq<u8>> {
    Seq::new(image_data.len(), |y: int| image_data[y]@)
}

/// The two bytes of `n` modulo 65536, least significant first.
pub open spec fn le16(n: int) -> Seq<u8> {
    seq![(n % 256) as u8, (n / 256 % 256) as u8]
}

/// The four bytes of `n` modulo 2^32, least significant first.
pub open spec fn le32(n: int) -> Seq<u8> {
    seq![
        (n % 256) as u8,
        (n / 256 % 256) as u8,
        (n / 65536 % 256) as u8,
        (n / 16777216 % 256) as u8,
    ]
}

/// The number that two bytes stand for, least significant first.
pub open spec fn from_le16(lo: u8, hi: u8) -> int {
    lo as int + 256 * (hi as int)
}

/// The number that four bytes stand for, least significant first.
pub open spec fn from_le32(b0: u8, b1: u8, b2: u8, b3: u8) -> int {
    b0 as int + 256 * (b1 as int) + 65536 * (b2 as int) + 16777216 * (b3 as int)
}

/// The rows one after the other.
pub open spec fn concat(rows: Seq<Seq<u8>>) -> Seq<u8>
    decreases rows.len(),
{
    if rows.len() == 0 {
        Seq::empty()
    } else {
        concat(rows.drop_last()) + rows.last()
    }
}

/// The number of pixels in the first row of an image.
pub open spec fn width_of(rows: Seq<Seq<u8>>) -> int {
    rows[0].len() as int / 3
}

/// The header of a TGA file: no identification field, no colour map,
/// uncompressed true colour, origin at zero, the width at offset 12, the
/// height at offset 14, 24 bits per pixel.
pub open spec fn tga_header(width: int, height: int) -> Seq<u8> {
    seq![0u8, 0u8, 2u8, 0u8, 0u8, 0u8, 0u8, 0u8, 0u8, 0u8, 0u8, 0u8] + le16(width) + le16(height)
        + seq![24u8, 0u8]
}

/// The bytes of the TGA file of an image.
pub open spec fn tga_file(rows: Seq<Seq<u8>>) -> Seq<u8> {
    tga_header(width_of(rows), rows.len() as int) + concat(rows)
}

/// The number of bytes that bring a row of `len` bytes to a multiple of four.
pub open spec fn padding(len: int) -> int {
    (4 - len % 4) % 4
}

/// A row with zero bytes added up to a multiple of four.
pub open spec fn padded(row: Seq<u8>) -> Seq<u8> {
    row + Seq::new(padding(row.len() as int) as nat, |i: int| 0u8)
}

/// The rows one after the other, each padded to a multiple of four bytes.
pub open spec fn bmp_data(rows: Seq<Seq<u8>>) -> Seq<u8>
    decreases rows.len(),
{
    if rows.len() == 0 {
        Seq::empty()
    } else {
        bmp_data(rows.drop_last()) + padded(rows.last())
    }
}

/// The two headers of a BMP file: the letters `BM`, the size of the file at
/// offset 2, four reserved bytes, the offset of the rows (26), the size of
/// the core header (12), the width at offset 18, the height at offset 20, one
/// colour plane, 24 bits per pixel.
pub open spec fn bmp_header(filesize: int, width: int, height: int) -> Seq<u8> {
    seq![66u8, 77u8] + le32(filesize) + seq![0u8, 0u8, 0u8, 0u8, 26u8, 0u8, 0u8, 0u8, 12u8, 0u8, 0u8, 0u8]
        + le16(width) + le16(height) + seq![1u8, 0u8, 24u8, 0u8]
}

/// The bytes of the BMP file of an image.
pub open spec fn bmp_file(rows: Seq<Seq<u8>>) -> Seq<u8> {
    bmp_header(26 + bmp_data(rows).len() as int, width_of(rows), rows.len() as int) + bmp_data(rows)
}

/// Whether an image has `height` rows of `width` pixels each.
pub open spec fn rectangular(rows: Seq<Seq<u8>>, width: int, height: int) -> bool {
    &&& rows.len() == height
    &&& width >= 0
    &&& forall|y: int| 0 <= y < height ==> (#[trigger] rows[y]).len() == 3 * width
}

/// The width that the header of a TGA file carries.
pub open spec fn tga_width(file: Seq<u8>) -> int {
    from_le16(file[12], file[13])
}

/// The height that the header of a TGA file carries.
pub open spec fn tga_height(file: Seq<u8>) -> int {
    from_le16(file[14], file[15])
}

/// The rows that a TGA file holds, read by the dimensions in its header.
pub open spec fn tga_rows(file: Seq<u8>) -> Seq<Seq<u8>> {
    Seq::new(
        tga_height(file) as nat,
        |y: int| file.subrange(18 + y * (3 * tga_width(file)), 18 + (y + 1) * (3 * tga_width(file))),
    )
}

/// The file size that the header of a BMP file carries.
pub open spec fn bmp_filesize(file: Seq<u8>) -> int {
    from_le32(file[2], file[3], file[4], file[5])
}

/// The width that the header of a BMP file carries.
pub open spec fn bmp_width(file: Seq<u8>) -> int {
    from_le16(file[18], file[19])
}

/// The height that the header of a BMP file carries.
pub open spec fn bmp_height(file: Seq<u8>) -> int {
    from_le16(file[20], file[21])
}

/// The distance in bytes from one row of a BMP file to the next.
pub open spec fn bmp_stride(width: int) -> int {
    3 * width + padding(3 * width)
}

/// Byte `i` of row `y` of a BMP file whose rows are `width` pixels wide,
/// padding counted.
pub open spec fn bmp_at(file: Seq<u8>, width: int, y: int, i: int) -> u8 {
    file[26 + y * bmp_stride(width) + i]
}

/// The rows that a BMP file holds, read by the dimensions in its header and
/// without their padding.
pub open spec fn bmp_rows(file: Seq<u8>) -> Seq<Seq<u8>> {
    Seq::new(
        bmp_height(file) as nat,
        |y: int|
            file.subrange(
                26 + y * bmp_stride(bmp_width(file)),
                26 + y * bmp_stride(bmp_width(file)) + 3 * bmp_width(file),
            ),
    )
}

/// Rows of one length, one after the other, take that length each.
pub proof fn lemma_concat_len(rows: Seq<Seq<u8>>, len: int)
    requires
        forall|y: int| 0 <= y < rows.len() ==> (#[trigger] rows[y]).len() == len,
    ensures
        concat(rows).len() == rows.len() * len,
    decreases rows.len(),
{
    if rows.len() > 0 {
        lemma_concat_len(rows.drop_last(), len);
        assert(concat(rows).len() == (rows.len() - 1) * len + len);
        assert((rows.len() - 1) * len + len == rows.len() * len) by (nonlinear_arith);
    } else {
        assert(rows.len() * len == 0) by (nonlinear_arith)
            requires
                rows.len() == 0,
        ;
    }
}

/// Where rows of one length stand one after the other, byte `i` of row `y`
/// stands at `y * len + i`.
pub proof fn lemma_concat_index(rows: Seq<Seq<u8>>, len: int, y: int, i: int)
    requires
        forall|k: int| 0 <= k < rows.len() ==> (#[trigger] rows[k]).len() == len,
        0 <= y < rows.len(),
        0 <= i < len,
    ensures
        0 <= y * len + i < concat(rows).len(),
        concat(rows)[y * len + i] == rows[y][i],
    decreases rows.len(),
{
    let front = rows.drop_last();
    lemma_concat_len(rows, len);
    lemma_concat_len(front, len);
    assert(0 <= y * len + i < rows.len() * len) by (nonlinear_arith)
        requires
            0 <= y < rows.len(),
            0 <= i < len,
    ;
    if y < rows.len() - 1 {
        lemma_concat_index(front, len, y, i);
        assert(front[y] == rows[y]);
    } else {
        assert(y * len == front.len() * len);
        assert(rows.last() == rows[y]);
    }
}

/// The padded rows one after the other are the rows, each padded, one after
/// the other.
pub proof fn lemma_bmp_data_concat(rows: Seq<Seq<u8>>)
    ensures
        bmp_data(rows) == concat(rows.map_values(|row: Seq<u8>| padded(row))),
    decreases rows.len(),
{
    let each = rows.map_values(|row: Seq<u8>| padded(row));
    if rows.len() > 0 {
        lemma_bmp_data_concat(rows.drop_last());
        assert(each.drop_last() =~= rows.drop_last().map_values(|row: Seq<u8>| padded(row)));
        assert(each.last() == padded(rows.last()));
    }
}

/// A number below 65536 is read back from its two bytes.
pub proof fn lemma_le16_round_trip(n: int)
    requires
        0 <= n < 65536,
    ensures
        le16(n).len() == 2,
        from_le16(le16(n)[0], le16(n)[1]) == n,
{
}

/// A number below 2^32 is read back from its four bytes.
pub proof fn lemma_le32_round_trip(n: int)
    requires
        0 <= n < 0x1_0000_0000,
    ensures
        le32(n).len() == 4,
        from_le32(le32(n)[0], le32(n)[1], le32(n)[2], le32(n)[3]) == n,
{
}

/// What was stored in a TGA file is read back from it: for an image of
/// `height` rows of `width` pixels, both at most 65535, the header carries
/// exactly these dimensions, the file is as long as header and rows
/// together, and the rows read from the file are the rows of the image.
pub proof fn lemma_tga_round_trip(rows: Seq<Seq<u8>>, width: int, height: int)
    requires
        rectangular(rows, width, height),
        1 <= height <= 65535,
        width <= 65535,
    ensures
        tga_file(rows).len() == 18 + height * (3 * width),
        tga_width(tga_file(rows)) == width,
        tga_height(tga_file(rows)) == height,
        tga_rows(tga_file(rows)) == rows,
{
    let file = tga_file(rows);
    let len = 3 * width;
    let header = tga_header(width, height);
    assert(rows[0].len() == len);
    assert(width_of(rows) == width);
    lemma_le16_round_trip(width);
    lemma_le16_round_trip(height);
    lemma_concat_len(rows, len);
    assert(header.len() == 18);
    assert(file[12] == le16(width)[0] && file[13] == le16(width)[1]);
    assert(file[14] == le16(height)[0] && file[15] == le16(height)[1]);
    let read = tga_rows(file);
    assert(read.len() == rows.len());
    assert forall|y: int| 0 <= y < height implies read[y] == rows[y] by {
        assert(0 <= y * len && (y + 1) * len <= height * len && (y + 1) * len == y * len + len)
            by (nonlinear_arith)
            requires
                0 <= y < height,
                len >= 0,
        ;
        assert(read[y].len() == len);
        assert forall|i: int| 0 <= i < len implies read[y][i] == rows[y][i] by {
            lemma_concat_index(rows, len, y, i);
            assert(file[18 + y * len + i] == concat(rows)[y * len + i]);
        }
        assert(read[y] =~= rows[y]);
    }
    assert(read =~= rows);
}

/// What was stored in a BMP file is read back from it: for an image of
/// `height` rows of `width` pixels, both at most 65535, the header carries
/// exactly these dimensions, every row starts at a multiple of four bytes
/// from the first and is followed by zero bytes only, the file is as long as
/// the headers and the padded rows together, the header carries that length
/// where it is below 2^32, and the rows read from the file are the rows of
/// the image.
pub proof fn lemma_bmp_round_trip(rows: Seq<Seq<u8>>, width: int, height: int)
    requires
        rectangular(rows, width, height),
        1 <= height <= 65535,
        width <= 65535,
    ensures
        bmp_stride(width) % 4 == 0,
        bmp_stride(width) - 3 * width == width % 4,
        bmp_file(rows).len() == 26 + height * bmp_stride(width),
        bmp_file(rows).len() < 0x1_0000_0000 ==> bmp_filesize(bmp_file(rows)) == bmp_file(
            rows,
        ).len(),
        bmp_width(bmp_file(rows)) == width,
        bmp_height(bmp_file(rows)) == height,
        bmp_rows(bmp_file(rows)) == rows,
        forall|y: int, i: int|
            0 <= y < height && 3 * width <= i < bmp_stride(width) ==> #[trigger] bmp_at(
                bmp_file(rows),
                width,
                y,
                i,
            ) == 0,
{
    let file = bmp_file(rows);
    let len = 3 * width;
    let stride = bmp_stride(width);
    let each = rows.map_values(|row: Seq<u8>| padded(row));
    let data = bmp_data(rows);
    let header = bmp_header(26 + data.len() as int, width, height);
    assert(rows[0].len() == len);
    assert(width_of(rows) == width);
    lemma_bmp_data_concat(rows);
    assert forall|y: int| 0 <= y < each.len() implies (#[trigger] each[y]).len() == stride by {
        assert(rows[y].len() == len);
    }
    lemma_concat_len(each, stride);
    lemma_le16_round_trip(width);
    lemma_le16_round_trip(height);
    assert(header.len() == 26);
    assert(file.len() == 26 + height * stride);
    assert(file[18] == le16(width)[0] && file[19] == le16(width)[1]);
    assert(file[20] == le16(height)[0] && file[21] == le16(height)[1]);
    if file.len() < 0x1_0000_0000 {
        let n = 26 + data.len() as int;
        lemma_le32_round_trip(n);
        assert(file[2] == le32(n)[0] && file[3] == le32(n)[1] && file[4] == le32(n)[2] && file[5]
            == le32(n)[3]);
    }
    let read = bmp_rows(file);
    assert(read.len() == rows.len());
    assert forall|y: int, i: int| 0 <= y < height && 0 <= i < stride implies #[trigger] bmp_at(
        file,
        width,
        y,
        i,
    ) == each[y][i] by {
        lemma_concat_index(each, stride, y, i);
        assert(file[26 + y * stride + i] == data[y * stride + i]);
    }
    assert forall|y: int| 0 <= y < height implies read[y] == rows[y] by {
        assert(0 <= y * stride && y * stride + stride <= height * stride) by (nonlinear_arith)
            requires
                0 <= y < height,
                stride >= 0,
        ;
        assert(read[y].len() == len);
        assert forall|i: int| 0 <= i < len implies read[y][i] == rows[y][i] by {
            assert(bmp_at(file, width, y, i) == each[y][i]);
            assert(each[y][i] == rows[y][i]);
        }
        assert(read[y] =~= rows[y]);
    }
    assert(read =~= rows);
    assert forall|y: int, i: int| 0 <= y < height && len <= i < stride implies #[trigger] bmp_at(
        file,
        width,
        y,
        i,
    ) == 0 by {
        assert(bmp_at(file, width, y, i) == each[y][i]);
        assert(rows[y].len() == len);
    }
}

fn push_le16(file: &mut Vec<u8>, n: usize)
    ensures
        final(file)@ == old(file)@ + le16(n as int),
{
    file.push((n % 256) as u8);
    file.push((n / 256 % 256) as u8);
    assert(file@ =~= old(file)@ + le16(n as int));
}

fn push_le32(file: &mut Vec<u8>, n: u128)
    ensures
        final(file)@ == old(file)@ + le32(n as int),
{
    file.push((n % 256) as u8);
    file.push((n / 256 % 256) as u8);
    file.push((n / 65536 % 256) as u8);
    file.push((n / 16777216 % 256) as u8);
    assert(file@ =~= old(file)@ + le32(n as int));
}

fn push_zeros(file: &mut Vec<u8>, count: usize)
    ensures
        final(file)@ == old(file)@ + Seq::new(count as nat, |i: int| 0u8),
{
    let mut i: usize = 0;
    while i < count
        invariant
            i <= count,
            file@ == old(file)@ + Seq::new(i as nat, |i: int| 0u8),
        decreases count - i,
    {
        file.push(0);
        i += 1;
        assert(file@ =~= old(file)@ + Seq::new(i as nat, |i: int| 0u8));
    }
}

fn push_row(file: &mut Vec<u8>, row: &Vec<u8>)
    ensures
        final(file)@ == old(file)@ + row@,
{
    let mut i: usize = 0;
    while i < row.len()
        invariant
            i <= row.len(),
            file@ == old(file)@ + row@.take(i as int),
        decreases row.len() - i,
    {
        file.push(row[i]);
        i += 1;
        assert(file@ =~= old(file)@ + row@.take(i as int));
    }
    assert(row@.take(row.len() as int) =~= row@);
}

fn tga_header_bytes(width: usize, height: usize) -> (file: Vec<u8>)
    ensures
        file@ == tga_header(width as int, height as int),
{
    let mut file: Vec<u8> = Vec::new();
    file.push(0);
    file.push(0);
    file.push(2);
    push_zeros(&mut file, 9);
    push_le16(&mut file, width);
    push_le16(&mut file, height);
    file.push(24);
    file.push(0);
    assert(file@ =~= tga_header(width as int, height as int));
    file
}

fn bmp_header_bytes(data_len: usize, width: usize, height: usize) -> (file: Vec<u8>)
    ensures
        file@ == bmp_header(26 + data_len as int, width as int, height as int),
{
    let mut file: Vec<u8> = Vec::new();
    file.push(66);
    file.push(77);
    let filesize: u128 = data_len as u128 + 26;
    push_le32(&mut file, filesize);
    push_zeros(&mut file, 4);
    file.push(26);
    push_zeros(&mut file, 3);
    file.push(12);
    push_zeros(&mut file, 3);
    push_le16(&mut file, width);
    push_le16(&mut file, height);
    file.push(1);
    file.push(0);
    file.push(24);
    file.push(0);
    assert(file@ =~= bmp_header(26 + data_len as int, width as int, height as int));
    file
}

fn padded_rows(image_data: &[Vec<u8>]) -> (data: Vec<u8>)
    ensures
        data@ == bmp_data(rows_of(image_data@)),
{
    let ghost rows = rows_of(image_data@);
    let mut data: Vec<u8> = Vec::new();
    let mut y: usize = 0;
    while y < image_data.len()
        invariant
            y <= image_data.len(),
            rows == rows_of(image_data@),
            data@ == bmp_data(rows.take(y as int)),
        decreases image_data.len() - y,
    {
        let ghost before = data@;
        push_row(&mut data, &image_data[y]);
        push_zeros(&mut data, (4 - image_data[y].len() % 4) % 4);
        proof {
            let next = rows.take(y + 1);
            assert(next.drop_last() =~= rows.take(y as int));
            assert(next.last() == image_data@[y as int]@);
            assert(data@ =~= before + padded(next.last()));
        }
        y += 1;
    }
    assert(rows.take(image_data.len() as int) =~= rows);
    data
}

/// The bytes of the TGA file of an image: the header, then the rows as they
/// are. The header's width is a third of the length of the first row, its
/// height the number of rows, each modulo 65536.
pub fn tga_bytes(image_data: &[Vec<u8>]) -> (file: Vec<u8>)
    requires
        image_data.len() > 0,
    ensures
        file@ == tga_file(rows_of(image_data@)),
{
    let ghost rows = rows_of(image_data@);
    let mut file = tga_header_bytes(image_data[0].len() / 3, image_data.len());
    let ghost header = file@;
    let mut y: usize = 0;
    while y < image_data.len()
        invariant
            y <= image_data.len(),
            rows == rows_of(image_data@),
            file@ == header + concat(rows.take(y as int)),
        decreases image_data.len() - y,
    {
        push_row(&mut file, &image_data[y]);
        proof {
            let next = rows.take(y + 1);
            assert(next.drop_last() =~= rows.take(y as int));
            assert(next.last() == image_data@[y as int]@);
        }
        y += 1;
    }
    assert(rows.take(image_data.len() as int) =~= rows);
    file
}

/// The bytes of the BMP file of an image: the two headers, then the rows,
/// each followed by zero bytes up to a multiple of four. The header's width
/// is a third of the length of the first row, its height the number of rows,
/// each modulo 65536; its file size is the length of the result modulo 2^32.
pub fn bmp_bytes(image_data: &[Vec<u8>]) -> (file: Vec<u8>)
    requires
        image_data.len() > 0,
    ensures
        file@ == bmp_file(rows_of(image_data@)),
{
    let data = padded_rows(image_data);
    let mut file = bmp_header_bytes(data.len(), image_data[0].len() / 3, image_data.len());
    push_row(&mut file, &data);
    file
}

} // verus!
