use gobble::codec::{
    codec_round_trip, compress_data, compressor, decompress_data, decompressor,
    retrieve_data_from_memory, store_data_in_memory, CodecError,
};

#[test]
fn zlib_round_trip() {
    let data = b"the gobble query language stores its pages compressed";
    let stored = compressor(data, "zlib").unwrap();
    assert_ne!(stored, data.to_vec(), "compression must transform the bytes");
    let restored = decompressor(&stored, "zlib").unwrap();
    assert_eq!(restored, data.to_vec());
}

#[test]
fn gzip_round_trip() {
    let data = b"aaaaaaaaaaaaaaaaaaaaaaaaaaaaaaaaaaaaaaaa";
    let stored = compressor(data, "gzip").unwrap();
    assert_ne!(stored, data.to_vec());
    assert!(stored.len() < data.len(), "repetitive data must shrink");
    let restored = decompressor(&stored, "gzip").unwrap();
    assert_eq!(restored, data.to_vec());
}

#[test]
fn deflate_round_trip() {
    let data = [0u8, 1, 2, 3, 255, 254, 253, 0, 0, 0];
    let stored = compressor(&data, "deflate").unwrap();
    let restored = decompressor(&stored, "deflate").unwrap();
    assert_eq!(restored, data.to_vec());
}

#[test]
fn empty_input_round_trips() {
    for codec in ["zlib", "gzip", "deflate"] {
        let stored = store_data_in_memory(&[], codec).unwrap();
        let restored = retrieve_data_from_memory(&stored, codec).unwrap();
        assert_eq!(restored, Vec::<u8>::new());
        let direct = codec_round_trip(&[], codec).unwrap();
        assert_eq!(direct, Vec::<u8>::new());
    }
}

#[test]
fn unknown_codec_is_an_error_not_a_crash() {
    assert_eq!(
        compress_data(b"abc", "unknown"),
        Err(CodecError::UnsupportedCodec)
    );
    assert_eq!(
        decompress_data(b"abc", "lz77"),
        Err(CodecError::UnsupportedCodec)
    );
    assert_eq!(codec_round_trip(b"abc", ""), Err(CodecError::UnsupportedCodec));
}

#[test]
fn corrupt_input_is_an_error_not_a_crash() {
    assert_eq!(
        decompress_data(&[1, 2, 3, 4], "zlib"),
        Err(CodecError::CorruptData)
    );
    assert_eq!(decompress_data(&[], "gzip"), Err(CodecError::CorruptData));
}

#[test]
fn codecs_are_case_sensitive_names() {
    assert_eq!(
        compress_data(b"abc", "ZLIB"),
        Err(CodecError::UnsupportedCodec)
    );
}
