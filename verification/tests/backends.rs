use deflaters::atomicmin::AtomicMin;
use deflaters::buffered::{zopfli_deflate, BufferedZopfliDeflater};
use deflaters::deflater::{deflate, zlib_encode};
use deflaters::deflaters::{Deflater, Deflaters};
use deflaters::error::PngError;
use miniz_oxide::inflate::decompress_to_vec_zlib;

fn plain_adler32(data: &[u8]) -> u32 {
    let mut low: u32 = 1;
    let mut high: u32 = 0;
    for byte in data {
        low = (low + u32::from(*byte)) % 65521;
        high = (high + low) % 65521;
    }
    high * 65536 + low
}

fn noise(len: usize) -> Vec<u8> {
    let mut state: u32 = 0x2545_F491;
    let mut bytes: Vec<u8> = Vec::with_capacity(len);
    for _ in 0..len {
        state ^= state << 13;
        state ^= state >> 17;
        state ^= state << 5;
        bytes.push((state >> 11) as u8);
    }
    bytes
}

fn text(len: usize) -> Vec<u8> {
    let pattern: &[u8] = b"the quick brown fox jumps over the lazy dog; ";
    let mut bytes: Vec<u8> = Vec::with_capacity(len);
    for i in 0..len {
        bytes.push(pattern[(i * 7 + i / 13) % pattern.len()]);
    }
    bytes
}

fn head_of(stream: &[u8]) -> u32 {
    u32::from(stream[0]) * 256 + u32::from(stream[1])
}

fn tail_of(stream: &[u8]) -> u32 {
    let at: usize = stream.len() - 4;
    u32::from_be_bytes([stream[at], stream[at + 1], stream[at + 2], stream[at + 3]])
}

#[test]
fn ten_letters_at_level_six() {
    let data: &[u8] = b"AAAAAAAAAA";
    let config = Deflaters::Libdeflater { compression: 6 };
    let stream = config.deflate(data, &AtomicMin::new(None)).expect("no ceiling, valid level");
    assert_eq!(stream[0] & 0x0F, 8);
    assert_eq!(head_of(&stream) % 31, 0);
    assert_eq!(decompress_to_vec_zlib(&stream).expect("a zlib stream"), data);
}

#[test]
fn the_fast_backend_round_trips_at_every_level() {
    let data = text(3000);
    for level in 1..=12u8 {
        let config = Deflaters::Libdeflater { compression: level };
        let stream = config.deflate(&data, &AtomicMin::new(None)).expect("valid level");
        assert_eq!(decompress_to_vec_zlib(&stream).expect("a zlib stream"), data);
        assert!(stream.len() < data.len());
    }
}

#[test]
fn the_fast_backend_round_trips_noise_and_nothing() {
    let data = noise(5000);
    let stream = deflate(&data, 9, &AtomicMin::new(None)).expect("valid level");
    assert_eq!(decompress_to_vec_zlib(&stream).expect("a zlib stream"), data);
    let stream = deflate(&[], 1, &AtomicMin::new(None)).expect("valid level");
    assert_eq!(decompress_to_vec_zlib(&stream).expect("a zlib stream"), Vec::<u8>::new());
}

#[test]
fn the_fast_backend_gives_the_same_stream_twice() {
    let data = text(4096);
    for level in [1u8, 6, 12] {
        let first = zlib_encode(&data, level).expect("valid level");
        let second = zlib_encode(&data, level).expect("valid level");
        assert_eq!(first, second);
        let config = Deflaters::Libdeflater { compression: level };
        let third = config.deflate(&data, &AtomicMin::new(None)).expect("valid level");
        assert_eq!(first, third);
    }
}

#[test]
fn the_fast_backend_turns_down_levels_out_of_range() {
    let budget = AtomicMin::new(None);
    assert!(matches!(deflate(b"abc", 0, &budget), Err(PngError::Other(_))));
    assert!(matches!(deflate(b"abc", 13, &budget), Err(PngError::Other(_))));
    assert!(matches!(zlib_encode(b"abc", 255), Err(PngError::Other(_))));
    let config = Deflaters::Libdeflater { compression: 0 };
    assert!(matches!(config.deflate(b"abc", &budget), Err(PngError::Other(_))));
    assert!(!config.is_valid());
}

#[test]
fn the_fast_backend_respects_the_ceiling() {
    let data = noise(600);
    let free = deflate(&data, 6, &AtomicMin::new(None)).expect("valid level");
    let exact = AtomicMin::new(Some(free.len()));
    assert_eq!(deflate(&data, 6, &exact), Ok(free.clone()));
    assert_eq!(exact.get(), Some(free.len()));
    let tight = AtomicMin::new(Some(free.len() - 1));
    assert_eq!(deflate(&data, 6, &tight), Err(PngError::DeflatedDataTooLong(free.len() - 1)));
    assert_eq!(tight.get(), Some(free.len() - 1));
}

#[test]
fn a_ceiling_of_five_bytes_drops_the_fast_stream() {
    let data = noise(12);
    let free = deflate(&data, 6, &AtomicMin::new(None)).expect("valid level");
    assert!(free.len() >= 20);
    let config = Deflaters::Libdeflater { compression: 6 };
    let budget = AtomicMin::new(Some(5));
    assert_eq!(config.deflate(&data, &budget), Err(PngError::DeflatedDataTooLong(5)));
    assert_eq!(budget.get(), Some(5));
}

#[test]
fn a_ceiling_of_five_bytes_drops_the_exhaustive_stream() {
    let data = noise(14);
    let deflater = BufferedZopfliDeflater::new(1, 1024, 1024, 15);
    let free = deflater.deflate(&data, &AtomicMin::new(None)).expect("no ceiling");
    assert!(free.len() >= 20);
    let budget = AtomicMin::new(Some(5));
    assert_eq!(
        deflater.deflate(&data, &budget),
        Err(PngError::DeflatedDataTooLong(free.len()))
    );
    let config = Deflaters::Zopfli { iterations: 1 };
    match config.deflate(&data, &budget) {
        Err(PngError::DeflatedDataTooLong(bytes)) => assert!(bytes >= 20 || bytes == 5),
        other => panic!("expected an over-long stream, got {:?}", other),
    }
    assert_eq!(budget.get(), Some(5));
}

#[test]
fn the_exhaustive_backend_respects_the_ceiling() {
    let data = text(500);
    let deflater = BufferedZopfliDeflater::new(2, 4096, 4096, 15);
    let free = deflater.deflate(&data, &AtomicMin::new(None)).expect("no ceiling");
    assert_eq!(deflater.deflate(&data, &AtomicMin::new(Some(free.len()))), Ok(free.clone()));
    assert_eq!(
        deflater.deflate(&data, &AtomicMin::new(Some(free.len() - 1))),
        Err(PngError::DeflatedDataTooLong(free.len()))
    );
}

#[test]
fn the_exhaustive_stream_has_the_zlib_envelope() {
    let data = text(1500);
    let deflater = BufferedZopfliDeflater::new(3, 4096, 4096, 15);
    let stream = deflater.deflate(&data, &AtomicMin::new(None)).expect("no ceiling");
    assert_eq!(stream[0], 0x78);
    assert_eq!(stream[1], 0xDA);
    assert_eq!(head_of(&stream) % 31, 0);
    assert_eq!(tail_of(&stream), plain_adler32(&data));
    assert_eq!(decompress_to_vec_zlib(&stream).expect("a zlib stream"), data);
}

#[test]
fn the_exhaustive_backend_round_trips_nothing_and_one_byte() {
    let deflater = BufferedZopfliDeflater::new(1, 8, 8, 1);
    let stream = deflater.deflate(&[], &AtomicMin::new(None)).expect("no ceiling");
    assert_eq!(tail_of(&stream), 1);
    assert_eq!(decompress_to_vec_zlib(&stream).expect("a zlib stream"), Vec::<u8>::new());
    let stream = deflater.deflate(&[200], &AtomicMin::new(None)).expect("no ceiling");
    assert_eq!(tail_of(&stream), 0x00C9_00C9);
    assert_eq!(decompress_to_vec_zlib(&stream).expect("a zlib stream"), vec![200u8]);
}

#[test]
fn the_exhaustive_backend_round_trips_with_small_buffers() {
    let data = text(1000);
    for (read, buffer) in [(1usize, 1usize), (7, 16), (16, 7), (64, 1000), (1000, 64), (999, 999)] {
        let deflater = BufferedZopfliDeflater::new(1, read, buffer, 15);
        let stream = deflater.deflate(&data, &AtomicMin::new(None)).expect("no ceiling");
        assert_eq!(head_of(&stream), 0x78DA);
        assert_eq!(tail_of(&stream), plain_adler32(&data));
        assert_eq!(decompress_to_vec_zlib(&stream).expect("a zlib stream"), data);
    }
}

#[test]
fn more_iterations_do_not_lengthen_the_stream() {
    let data = noise(2048);
    let budget = AtomicMin::new(None);
    let once = Deflaters::Zopfli { iterations: 1 }.deflate(&data, &budget).expect("no ceiling");
    let often = Deflaters::Zopfli { iterations: 15 }.deflate(&data, &budget).expect("no ceiling");
    assert_eq!(decompress_to_vec_zlib(&once).expect("a zlib stream"), data);
    assert_eq!(decompress_to_vec_zlib(&often).expect("a zlib stream"), data);
    assert!(often.len() <= once.len());
    assert_eq!(budget.get(), None);
}

#[test]
fn the_exhaustive_backend_turns_down_zero_iterations() {
    let budget = AtomicMin::new(None);
    assert!(matches!(zopfli_deflate(b"abc", 0, &budget), Err(PngError::Other(_))));
    let config = Deflaters::Zopfli { iterations: 0 };
    assert!(!config.is_valid());
    assert!(matches!(config.deflate(b"abc", &budget), Err(PngError::Other(_))));
}

#[test]
fn the_default_configuration_compresses() {
    let data = text(700);
    let deflater = BufferedZopfliDeflater::default();
    let stream = deflater.deflate(&data, &AtomicMin::new(None)).expect("no ceiling");
    assert_eq!(decompress_to_vec_zlib(&stream).expect("a zlib stream"), data);
    let same = BufferedZopfliDeflater::const_default()
        .deflate(&data, &AtomicMin::new(None))
        .expect("no ceiling");
    assert_eq!(stream, same);
    let named = zopfli_deflate(&data, 15, &AtomicMin::new(None)).expect("no ceiling");
    assert_eq!(stream, named);
}

#[test]
fn configurations_are_valid_within_their_ranges() {
    assert!(Deflaters::Libdeflater { compression: 1 }.is_valid());
    assert!(Deflaters::Libdeflater { compression: 12 }.is_valid());
    assert!(!Deflaters::Libdeflater { compression: 13 }.is_valid());
    assert!(Deflaters::Zopfli { iterations: 1 }.is_valid());
    assert!(Deflaters::Zopfli { iterations: 255 }.is_valid());
}

#[test]
fn configurations_have_labels() {
    assert_eq!(Deflaters::Libdeflater { compression: 6 }.label(), "6");
    assert_eq!(Deflaters::Libdeflater { compression: 12 }.label(), "12");
    assert_eq!(Deflaters::Zopfli { iterations: 15 }.label(), "zopfli");
}

#[test]
fn configurations_compare_by_backend_and_setting() {
    let fast = Deflaters::Libdeflater { compression: 6 };
    let copy = fast;
    assert_eq!(fast, copy);
    assert_ne!(fast, Deflaters::Libdeflater { compression: 7 });
    assert_ne!(fast, Deflaters::Zopfli { iterations: 6 });
}

#[test]
fn the_fast_backend_has_room_for_data_that_does_not_compress() {
    let sizes: [usize; 12] = [0, 1, 2, 5, 100, 4999, 5000, 5001, 65535, 65536, 70000, 150000];
    for size in sizes {
        let data = noise(size);
        for level in 1..=12u8 {
            let stream = zlib_encode(&data, level).expect("valid level");
            assert_eq!(head_of(&stream) % 31, 0);
            assert_eq!(tail_of(&stream), plain_adler32(&data));
            assert_eq!(decompress_to_vec_zlib(&stream).expect("a zlib stream"), data);
        }
    }
}
