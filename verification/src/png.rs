//! The placeholder image: a gradient keyed by pixel coordinates, stored
//! without compression in a well-formed image container.

use vstd::prelude::*;
use crate::checksum::{
    adler32,
    adler32_of,
    be32,
    crc32,
    crc_feed_from,
    from_be32,
    lemma_be32_round_trip,
    push_be32,
    push_range,
};

verus! {

/// The eight bytes that every image file starts with.
pub open spec fn signature() -> Seq<u8> {
    seq![0x89u8, 0x50, 0x4E, 0x47, 0x0D, 0x0A, 0x1A, 0x0A]
}

/// Tag of the header chunk, `IHDR`.
pub open spec fn header_tag() -> Seq<u8> {
    seq![0x49u8, 0x48, 0x44, 0x52]
}

/// Tag of the data chunk, `IDAT`.
pub open spec fn data_tag() -> Seq<u8> {
    seq![0x49u8, 0x44, 0x41, 0x54]
}

/// Tag of the closing chunk, `IEND`.
pub open spec fn end_tag() -> Seq<u8> {
    seq![0x49u8, 0x45, 0x4E, 0x44]
}

/// Largest number of bytes that one chunk may carry.
pub const MAX_CHUNK_DATA: usize = 0x7FFF_FFFF;

/// Largest number of bytes of one stored block.
pub const MAX_BLOCK: usize = 0xFFFF;

/// A chunk: the length of its data, its tag, its data, and the cyclic
/// redundancy check of tag and data.
pub open spec fn chunk(tag: Seq<u8>, data: Seq<u8>) -> Seq<u8> {
    be32(data.len() as u32) + tag + data + be32(crc32(tag + data))
}

/// The data of the header chunk: width, height, eight bits per sample,
/// truecolour, and the only compression, filter and interlace methods.
pub open spec fn header_data(width: u32, height: u32) -> Seq<u8> {
    be32(width) + be32(height) + seq![8u8, 2, 0, 0, 0]
}

/// The value of a colour channel that grows with a coordinate: 0 at the
/// first row or column, and below 255 at the last.
pub open spec fn ramp(coordinate: int, extent: int) -> u8 {
    (coordinate * 255 / extent) as u8
}

/// The three samples of the pixel in column `x` of row `y`: red grows with
/// the column, green with the row, blue is constant.
pub open spec fn pixel(width: u32, height: u32, x: int, y: int) -> Seq<u8> {
    seq![ramp(x, width as int), ramp(y, height as int), 128u8]
}

/// The first `n` pixels of row `y`.
pub open spec fn pixels(width: u32, height: u32, y: int, n: nat) -> Seq<u8>
    decreases n,
{
    if n == 0 {
        Seq::empty()
    } else {
        pixels(width, height, y, (n - 1) as nat) + pixel(width, height, n - 1, y)
    }
}

/// Row `y` as the container stores it: the filter type none, then the pixels.
pub open spec fn scanline(width: u32, height: u32, y: int) -> Seq<u8> {
    seq![0u8] + pixels(width, height, y, width as nat)
}

/// The first `n` rows.
pub open spec fn scanlines(width: u32, height: u32, n: nat) -> Seq<u8>
    decreases n,
{
    if n == 0 {
        Seq::empty()
    } else {
        scanlines(width, height, (n - 1) as nat) + scanline(width, height, n - 1)
    }
}

/// The whole picture, row by row.
pub open spec fn raster(width: u32, height: u32) -> Seq<u8> {
    scanlines(width, height, height as nat)
}

/// Number of bytes of the picture: each row has a filter byte and three
/// bytes per pixel.
pub open spec fn raster_len(width: u32, height: u32) -> int {
    height * (1 + 3 * width)
}

/// One stored block: whether it is the last, the length of its body in two
/// bytes, least significant first, the complement of the length, the body.
pub open spec fn stored_block(last: bool, body: Seq<u8>) -> Seq<u8> {
    seq![
        if last { 1u8 } else { 0u8 },
        (body.len() % 256) as u8,
        (body.len() / 256) as u8,
        (255 - body.len() % 256) as u8,
        (255 - body.len() / 256) as u8,
    ] + body
}

/// The data cut into stored blocks, each but the last as long as a block
/// can be.
pub open spec fn stored_blocks(data: Seq<u8>) -> Seq<u8>
    decreases data.len(),
{
    if data.len() <= MAX_BLOCK {
        stored_block(true, data)
    } else {
        stored_block(false, data.take(MAX_BLOCK as int)) + stored_blocks(
            data.skip(MAX_BLOCK as int),
        )
    }
}

/// Number of bytes of the stored blocks of `n` bytes of data.
pub open spec fn stored_len(n: int) -> int {
    if n <= MAX_BLOCK {
        n + 5
    } else {
        n + 5 * ((n + MAX_BLOCK - 1) / (MAX_BLOCK as int))
    }
}

/// The compressed stream of the data: the header of the format, the data in
/// stored blocks, and the Adler checksum of the data.
pub open spec fn zlib_stored(data: Seq<u8>) -> Seq<u8> {
    seq![0x78u8, 0x01] + stored_blocks(data) + be32(adler32(data))
}

/// Whether the picture fits the length field of one data chunk.
pub open spec fn image_fits(width: u32, height: u32) -> bool {
    stored_len(raster_len(width, height)) + 6 <= MAX_CHUNK_DATA
}

/// The header chunk of an image of the given size.
pub open spec fn header_chunk(width: u32, height: u32) -> Seq<u8> {
    chunk(header_tag(), header_data(width, height))
}

/// The data chunk of the placeholder image of the given size.
pub open spec fn data_chunk(width: u32, height: u32) -> Seq<u8> {
    chunk(data_tag(), zlib_stored(raster(width, height)))
}

/// The closing chunk.
pub open spec fn end_chunk() -> Seq<u8> {
    chunk(end_tag(), Seq::empty())
}

/// The placeholder image file of the given size.
pub open spec fn placeholder_image(width: u32, height: u32) -> Seq<u8> {
    signature() + header_chunk(width, height) + data_chunk(width, height) + end_chunk()
}

/// The stored blocks of `n` bytes take `stored_len(n)` bytes.
pub proof fn lemma_stored_blocks_len(data: Seq<u8>)
    ensures
        stored_blocks(data).len() == stored_len(data.len() as int),
    decreases data.len(),
{
    if data.len() > MAX_BLOCK {
        let rest = data.skip(MAX_BLOCK as int);
        lemma_stored_blocks_len(rest);
        let n = data.len() as int;
        assert((n + 65534) / 65535 == (n - 65535 + 65534) / 65535 + 1) by (nonlinear_arith);
        if rest.len() <= MAX_BLOCK {
            assert((n + 65534) / 65535 == 2) by (nonlinear_arith)
                requires
                    65535 < n <= 2 * 65535,
            ;
        }
    }
}

/// The first `n` pixels of a row take three bytes each.
pub proof fn lemma_pixels_len(width: u32, height: u32, y: int, n: nat)
    ensures
        pixels(width, height, y, n).len() == 3 * n,
    decreases n,
{
    if n > 0 {
        lemma_pixels_len(width, height, y, (n - 1) as nat);
    }
}

/// The first `n` rows take `n` times the bytes of one row.
pub proof fn lemma_scanlines_len(width: u32, height: u32, n: nat)
    ensures
        scanlines(width, height, n).len() == n * (1 + 3 * width),
    decreases n,
{
    if n > 0 {
        lemma_scanlines_len(width, height, (n - 1) as nat);
        lemma_pixels_len(width, height, n - 1, width as nat);
        assert(n * (1 + 3 * width) == (n - 1) * (1 + 3 * width) + (1 + 3 * width))
            by (nonlinear_arith);
    } else {
        assert(n * (1 + 3 * width) == 0) by (nonlinear_arith)
            requires
                n == 0,
        ;
    }
}

/// The picture holds exactly `width` by `height` pixels of three bytes,
/// and one filter byte for each row.
pub proof fn lemma_raster_len(width: u32, height: u32)
    ensures
        raster(width, height).len() == raster_len(width, height),
{
    lemma_scanlines_len(width, height, height as nat);
}

/// The file starts with the signature and the header chunk, whose data
/// starts with the width and the height: reading back bytes 16 to 19 gives
/// the width, bytes 20 to 23 the height, and the next two bytes say eight
/// bits per sample and truecolour.
pub proof fn lemma_header_carries_dimensions(width: u32, height: u32)
    ensures
        placeholder_image(width, height).len() >= 33,
        placeholder_image(width, height).subrange(0, 8) == signature(),
        placeholder_image(width, height).subrange(8, 12) == be32(13),
        placeholder_image(width, height).subrange(12, 16) == header_tag(),
        from_be32(placeholder_image(width, height).subrange(16, 20)) == width,
        from_be32(placeholder_image(width, height).subrange(20, 24)) == height,
        placeholder_image(width, height)[24] == 8,
        placeholder_image(width, height)[25] == 2,
{
    let file = placeholder_image(width, height);
    let header = header_chunk(width, height);
    assert(header.len() == 25);
    assert(file.subrange(0, 8) =~= signature());
    assert(file.subrange(8, 12) =~= be32(13));
    assert(file.subrange(12, 16) =~= header_tag());
    assert(file.subrange(16, 20) =~= be32(width));
    assert(file.subrange(20, 24) =~= be32(height));
    lemma_be32_round_trip(width);
    lemma_be32_round_trip(height);
}

/// The data that a run of stored blocks carries, as a reader of the
/// format takes it out: block by block up to the block marked last; `None`
/// where the run is not well formed.
pub open spec fn stored_data(blocks: Seq<u8>) -> Option<Seq<u8>>
    decreases blocks.len(),
{
    if blocks.len() < 5 {
        None
    } else {
        let len = blocks[1] + 256 * blocks[2];
        let complement = blocks[3] + 256 * blocks[4];
        if len + complement != 0xFFFF || blocks.len() < 5 + len {
            None
        } else if blocks[0] == 1 {
            if blocks.len() == 5 + len {
                Some(blocks.subrange(5, 5 + len))
            } else {
                None
            }
        } else if blocks[0] == 0 {
            match stored_data(blocks.skip(5 + len)) {
                Some(rest) => Some(blocks.subrange(5, 5 + len) + rest),
                None => None,
            }
        } else {
            None
        }
    }
}

/// The data that a compressed stream of stored blocks carries: the header
/// of the format is checked, and the checksum at the end against the data.
pub open spec fn inflate_stored(stream: Seq<u8>) -> Option<Seq<u8>> {
    if stream.len() < 6 || stream[0] != 0x78 || stream[1] != 0x01 {
        None
    } else {
        match stored_data(stream.subrange(2, stream.len() - 4)) {
            Some(data) => if stream.subrange(stream.len() - 4, stream.len() as int) == be32(
                adler32(data),
            ) {
                Some(data)
            } else {
                None
            },
            None => None,
        }
    }
}

/// A reader takes out of the stored blocks of some data that data.
pub proof fn lemma_stored_blocks_read_back(data: Seq<u8>)
    ensures
        stored_data(stored_blocks(data)) == Some(data),
    decreases data.len(),
{
    let blocks = stored_blocks(data);
    if data.len() <= MAX_BLOCK {
        assert(blocks.subrange(5, 5 + data.len() as int) =~= data);
    } else {
        let head = data.take(MAX_BLOCK as int);
        let tail = data.skip(MAX_BLOCK as int);
        lemma_stored_blocks_read_back(tail);
        assert(blocks.subrange(5, 5 + MAX_BLOCK) =~= head);
        assert(blocks.skip(5 + MAX_BLOCK) =~= stored_blocks(tail));
        assert(head + tail =~= data);
    }
}

/// A reader takes out of the compressed stream of some data that data.
pub proof fn lemma_zlib_stored_reads_back(data: Seq<u8>)
    ensures
        inflate_stored(zlib_stored(data)) == Some(data),
{
    let stream = zlib_stored(data);
    lemma_stored_blocks_read_back(data);
    assert(stream.subrange(2, stream.len() - 4) =~= stored_blocks(data));
    assert(stream.subrange(stream.len() - 4, stream.len() as int) =~= be32(adler32(data)));
}

/// The data chunk follows the header chunk at byte 33 of the file. Its
/// length field says how long the compressed stream is, and a reader takes
/// out of that stream the picture: `height` rows of one filter byte and
/// `width` pixels of three bytes.
pub proof fn lemma_image_carries_raster(width: u32, height: u32)
    requires
        image_fits(width, height),
    ensures
        ({
            let file = placeholder_image(width, height);
            let len = stored_len(raster_len(width, height)) + 6;
            &&& file.len() == len + 57
            &&& from_be32(file.subrange(33, 37)) == len
            &&& file.subrange(37, 41) == data_tag()
            &&& inflate_stored(file.subrange(41, 41 + len)) == Some(raster(width, height))
            &&& raster(width, height).len() == height * (1 + 3 * width)
            &&& file.subrange(len + 45, len + 57) == end_chunk()
        }),
{
    let file = placeholder_image(width, height);
    let picture = raster(width, height);
    let stream = zlib_stored(picture);
    let len = stored_len(raster_len(width, height)) + 6;
    lemma_raster_len(width, height);
    lemma_stored_blocks_len(picture);
    lemma_zlib_stored_reads_back(picture);
    assert(stream.len() == len);
    lemma_be32_round_trip(len as u32);
    assert(header_chunk(width, height).len() == 25);
    assert(data_chunk(width, height).len() == len + 12);
    assert(end_chunk().len() == 12);
    assert(file.subrange(33, 37) =~= be32(len as u32));
    assert(file.subrange(37, 41) =~= data_tag());
    assert(file.subrange(41, 41 + len) =~= stream);
    assert(file.subrange(len + 45, len + 57) =~= end_chunk());
}

/// An image of at most 1024 by 1024 pixels fits one data chunk.
pub proof fn lemma_bounded_image_fits(width: u32, height: u32)
    requires
        width <= 1024,
        height <= 1024,
    ensures
        image_fits(width, height),
{
    assert(height * (1 + 3 * width) <= 1024 * 3073) by (nonlinear_arith)
        requires
            width <= 1024,
            height <= 1024,
    ;
}

/// Decides whether the picture fits the length field of one data chunk.
pub fn dimensions_fit(width: u32, height: u32) -> (fits: bool)
    ensures
        fits == image_fits(width, height),
{
    if height == 0 {
        assert(raster_len(width, height) == 0) by (nonlinear_arith)
            requires
                height == 0,
        ;
        return true;
    }
    if width > 0x2AAA_AAAA {
        assert(raster_len(width, height) > 0x8000_0000) by (nonlinear_arith)
            requires
                height >= 1,
                width > 0x2AAA_AAAA,
        ;
        return false;
    }
    let row: u64 = 1 + 3 * (width as u64);
    assert(height * row <= 0xFFFF_FFFF * 0x8000_0000) by (nonlinear_arith)
        requires
            height <= 0xFFFF_FFFF,
            0 <= row <= 0x8000_0000,
    ;
    let len: u64 = (height as u64) * row;
    if len > MAX_CHUNK_DATA as u64 {
        return false;
    }
    let blocks: u64 = if len <= MAX_BLOCK as u64 {
        1
    } else {
        (len + MAX_BLOCK as u64 - 1) / (MAX_BLOCK as u64)
    };
    len + 5 * blocks + 6 <= MAX_CHUNK_DATA as u64
}

/// Computes the value of a channel that grows with a coordinate.
pub fn ramp_value(coordinate: u32, extent: u32) -> (value: u8)
    requires
        coordinate < extent,
    ensures
        value == ramp(coordinate as int, extent as int),
        value < 255,
{
    let scaled: u64 = coordinate as u64 * 255;
    let quotient: u64 = scaled / (extent as u64);
    assert(quotient < 255) by (nonlinear_arith)
        requires
            quotient == scaled / (extent as u64),
            scaled == coordinate * 255,
            coordinate < extent,
    ;
    quotient as u8
}

/// Builds the picture, row by row.
pub fn build_raster(width: u32, height: u32) -> (data: Vec<u8>)
    requires
        raster_len(width, height) <= MAX_CHUNK_DATA,
    ensures
        data@ == raster(width, height),
        data@.len() == raster_len(width, height),
{
    let mut data: Vec<u8> = Vec::new();
    let mut y: u32 = 0;
    while y < height
        invariant
            y <= height,
            data@ == scanlines(width, height, y as nat),
        decreases height - y,
    {
        let green: u8 = ramp_value(y, height);
        let ghost before = data@;
        data.push(0);
        let mut x: u32 = 0;
        while x < width
            invariant
                x <= width,
                y < height,
                green == ramp(y as int, height as int),
                data@ == before + seq![0u8] + pixels(width, height, y as int, x as nat),
            decreases width - x,
        {
            let red: u8 = ramp_value(x, width);
            data.push(red);
            data.push(green);
            data.push(128);
            x += 1;
            assert(data@ =~= before + seq![0u8] + pixels(width, height, y as int, x as nat));
        }
        y += 1;
        assert(data@ =~= scanlines(width, height, y as nat));
    }
    proof {
        lemma_raster_len(width, height);
    }
    data
}

/// Wraps data in the compressed stream format without compressing it.
pub fn store_uncompressed(data: &Vec<u8>) -> (stream: Vec<u8>)
    requires
        stored_len(data@.len() as int) + 6 <= MAX_CHUNK_DATA,
    ensures
        stream@ == zlib_stored(data@),
        stream@.len() == stored_len(data@.len() as int) + 6,
{
    let mut stream: Vec<u8> = Vec::new();
    stream.push(0x78);
    stream.push(0x01);
    let ghost head = stream@;
    let mut pos: usize = 0;
    assert(data@.skip(0) =~= data@);
    while data.len() - pos > MAX_BLOCK
        invariant
            pos <= data.len(),
            stream@ + stored_blocks(data@.skip(pos as int)) == head + stored_blocks(data@),
        decreases data.len() - pos,
    {
        let ghost rest = data@.skip(pos as int);
        let ghost before = stream@;
        stream.push(0);
        stream.push(0xFF);
        stream.push(0xFF);
        stream.push(0);
        stream.push(0);
        push_range(&mut stream, data.as_slice(), pos, pos + MAX_BLOCK);
        proof {
            assert(rest.take(MAX_BLOCK as int) =~= data@.subrange(
                pos as int,
                pos + MAX_BLOCK as int,
            ));
            assert(rest.skip(MAX_BLOCK as int) =~= data@.skip(pos + MAX_BLOCK as int));
            assert(stream@ =~= before + stored_block(false, rest.take(MAX_BLOCK as int)));
            assert(stream@ + stored_blocks(data@.skip(pos + MAX_BLOCK as int)) =~= before
                + stored_blocks(rest));
        }
        pos += MAX_BLOCK;
    }
    let len: usize = data.len() - pos;
    let ghost rest = data@.skip(pos as int);
    let ghost before = stream@;
    stream.push(1);
    stream.push((len % 256) as u8);
    stream.push((len / 256) as u8);
    stream.push((255 - len % 256) as u8);
    stream.push((255 - len / 256) as u8);
    push_range(&mut stream, data.as_slice(), pos, data.len());
    proof {
        assert(rest =~= data@.subrange(pos as int, data.len() as int));
        assert(stream@ =~= before + stored_block(true, rest));
        assert(stream@ == head + stored_blocks(data@));
        lemma_stored_blocks_len(data@);
    }
    let sum: u32 = adler32_of(data);
    push_be32(&mut stream, sum);
    assert(stream@ =~= zlib_stored(data@));
    stream
}

/// Frames data as a chunk with the given tag.
pub fn build_chunk(tag: [u8; 4], data: Vec<u8>) -> (bytes: Vec<u8>)
    requires
        data@.len() <= MAX_CHUNK_DATA,
    ensures
        bytes@ == chunk(tag@, data@),
        bytes@.len() == data@.len() + 12,
{
    let mut bytes: Vec<u8> = Vec::new();
    let mut data = data;
    let ghost body = data@;
    push_be32(&mut bytes, data.len() as u32);
    bytes.push(tag[0]);
    bytes.push(tag[1]);
    bytes.push(tag[2]);
    bytes.push(tag[3]);
    bytes.append(&mut data);
    assert(bytes@ =~= be32(body.len() as u32) + tag@ + body);
    assert(bytes@.subrange(4, bytes@.len() as int) =~= tag@ + body);
    let sum: u32 = crc_feed_from(0xFFFF_FFFF, &bytes, 4) ^ 0xFFFF_FFFF;
    push_be32(&mut bytes, sum);
    bytes
}

/// Builds the header chunk of an image of the given size.
pub fn create_ihdr_chunk(width: u32, height: u32) -> (bytes: Vec<u8>)
    ensures
        bytes@ == header_chunk(width, height),
        bytes@.len() == 25,
{
    let mut data: Vec<u8> = Vec::new();
    push_be32(&mut data, width);
    push_be32(&mut data, height);
    data.push(8);
    data.push(2);
    data.push(0);
    data.push(0);
    data.push(0);
    assert(data@ =~= header_data(width, height));
    let bytes = build_chunk([0x49, 0x48, 0x44, 0x52], data);
    assert([0x49u8, 0x48, 0x44, 0x52]@ =~= header_tag());
    bytes
}

/// Builds the data chunk of the placeholder image of the given size: the
/// gradient, stored without compression.
pub fn create_idat_chunk(width: u32, height: u32) -> (bytes: Vec<u8>)
    requires
        image_fits(width, height),
    ensures
        bytes@ == data_chunk(width, height),
        bytes@.len() == stored_len(raster_len(width, height)) + 18,
{
    let picture = build_raster(width, height);
    let stream = store_uncompressed(&picture);
    let bytes = build_chunk([0x49, 0x44, 0x41, 0x54], stream);
    assert([0x49u8, 0x44, 0x41, 0x54]@ =~= data_tag());
    bytes
}

/// Builds the closing chunk.
pub fn create_iend_chunk() -> (bytes: Vec<u8>)
    ensures
        bytes@ == end_chunk(),
        bytes@.len() == 12,
{
    let bytes = build_chunk([0x49, 0x45, 0x4E, 0x44], Vec::new());
    assert([0x49u8, 0x45, 0x4E, 0x44]@ =~= end_tag());
    bytes
}

/// Builds the placeholder image file of the given size: the signature, the
/// header chunk, the data chunk with the gradient, and the closing chunk.
pub fn create_placeholder_image(width: u32, height: u32) -> (file: Vec<u8>)
    requires
        image_fits(width, height),
    ensures
        file@ == placeholder_image(width, height),
{
    let mut file: Vec<u8> = Vec::new();
    file.push(0x89);
    file.push(0x50);
    file.push(0x4E);
    file.push(0x47);
    file.push(0x0D);
    file.push(0x0A);
    file.push(0x1A);
    file.push(0x0A);
    assert(file@ =~= signature());
    let mut header = create_ihdr_chunk(width, height);
    file.append(&mut header);
    let mut data = create_idat_chunk(width, height);
    file.append(&mut data);
    let mut end = create_iend_chunk();
    file.append(&mut end);
    file
}

} // verus!
