use zstd_codec::codec::Encode;
use zstd_codec::encoder::{apply_drain, ZstdEncoder, ZstdEncoderParams};
use zstd_codec::util::PartialBuffer;

/// Drives the encoder the way the external pipeline would: feed `data` in
/// input regions of `in_chunk` bytes, drain into fresh output regions of
/// `out_chunk` bytes, then finish the stream. Returns the whole compressed
/// stream.
fn compress_chunked(
    data: &[u8],
    in_chunk: usize,
    out_chunk: usize,
    mut enc: ZstdEncoder,
) -> Vec<u8> {
    let mut compressed: Vec<u8> = Vec::new();
    let mut start = 0usize;
    while start < data.len() {
        let end = usize::min(start + in_chunk, data.len());
        let mut input = PartialBuffer::new(data[start..end].to_vec());
        while input.position() < input.len() {
            let mut output = PartialBuffer::new(vec![0u8; out_chunk]);
            enc.encode(&mut input, &mut output).expect("encode failed");
            compressed.extend_from_slice(output.written());
        }
        start = end;
    }
    loop {
        let mut output = PartialBuffer::new(vec![0u8; out_chunk]);
        let done = enc.finish(&mut output).expect("finish failed");
        compressed.extend_from_slice(output.written());
        if done {
            break;
        }
    }
    compressed
}

fn decompress(compressed: &[u8]) -> Vec<u8> {
    zstd::decode_all(compressed).expect("decompress failed")
}

fn sample_data(len: usize) -> Vec<u8> {
    let mut data = Vec::with_capacity(len);
    for i in 0..len {
        data.push((i * 7 % 251) as u8);
    }
    data
}

fn default_encoder() -> ZstdEncoder {
    ZstdEncoder::new(ZstdEncoderParams::default()).expect("construction failed")
}

#[test]
fn round_trip_one_shot() {
    let data = sample_data(2000);
    let compressed = compress_chunked(&data, data.len(), 4096, default_encoder());
    assert_eq!(decompress(&compressed), data);
}

#[test]
fn round_trip_fragmented() {
    let data = sample_data(2000);
    let compressed = compress_chunked(&data, 7, 5, default_encoder());
    assert_eq!(decompress(&compressed), data);
}

#[test]
fn one_byte_buffers_match_one_shot() {
    let data = sample_data(300);
    let trickled = compress_chunked(&data, 1, 1, default_encoder());
    let one_shot = compress_chunked(&data, data.len(), 4096, default_encoder());
    assert_eq!(decompress(&trickled), data);
    assert_eq!(decompress(&one_shot), data);
    assert_eq!(decompress(&trickled), decompress(&one_shot));
}

#[test]
fn cursors_never_move_backwards() {
    let data = sample_data(100);
    let mut enc = default_encoder();
    let mut input = PartialBuffer::new(data.clone());
    let mut output = PartialBuffer::new(vec![0u8; 512]);
    let mut prev_in = input.position();
    let mut prev_out = output.position();
    while input.position() < input.len() {
        enc.encode(&mut input, &mut output).expect("encode failed");
        assert!(input.position() >= prev_in);
        assert!(input.position() <= input.len());
        assert!(output.position() >= prev_out);
        assert!(output.position() <= output.len());
        prev_in = input.position();
        prev_out = output.position();
    }
    loop {
        let done = enc.finish(&mut output).expect("finish failed");
        assert!(output.position() >= prev_out);
        assert!(output.position() <= output.len());
        prev_out = output.position();
        if done {
            break;
        }
    }
    assert_eq!(decompress(output.written()), data);
}

#[test]
fn zero_length_regions_make_no_progress() {
    let mut enc = default_encoder();
    let mut input = PartialBuffer::new(Vec::new());
    let mut output = PartialBuffer::new(Vec::new());
    enc.encode(&mut input, &mut output).expect("encode failed");
    assert_eq!(input.position(), 0);
    assert_eq!(output.position(), 0);
}

#[test]
fn finish_after_completion_reports_done_without_bytes() {
    let data = sample_data(50);
    let mut enc = default_encoder();
    let mut input = PartialBuffer::new(data.clone());
    let mut output = PartialBuffer::new(vec![0u8; 256]);
    while input.position() < input.len() {
        enc.encode(&mut input, &mut output).expect("encode failed");
    }
    loop {
        if enc.finish(&mut output).expect("finish failed") {
            break;
        }
    }
    let produced = output.position();
    let mut empty = PartialBuffer::new(Vec::new());
    let done = enc.finish(&mut empty).expect("finish failed");
    assert!(done);
    assert_eq!(empty.position(), 0);
    assert_eq!(output.position(), produced);
    assert_eq!(decompress(output.written()), data);
}

#[test]
fn apply_drain_moves_cursor_and_reports_completion() {
    let mut output = PartialBuffer::new(vec![0u8; 8]);
    assert!(!apply_drain(&mut output, 3, 5));
    assert_eq!(output.position(), 3);
    assert!(apply_drain(&mut output, 2, 0));
    assert_eq!(output.position(), 5);
    assert!(apply_drain(&mut output, 0, 0));
    assert_eq!(output.position(), 5);
}

#[test]
fn zero_length_output_region_stalls_finish_without_error() {
    let mut enc = default_encoder();
    let mut empty = PartialBuffer::new(Vec::new());
    let done = enc.finish(&mut empty).expect("finish failed");
    assert!(!done);
    assert_eq!(empty.position(), 0);
    let mut output = PartialBuffer::new(vec![0u8; 64]);
    let done = enc.finish(&mut output).expect("finish failed");
    assert!(done);
    assert_eq!(decompress(output.written()), Vec::<u8>::new());
}

#[test]
fn thread_count_does_not_change_decompressed_bytes() {
    let data = sample_data(5000);
    let params = ZstdEncoderParams { quality: 3, num_threads: 0 };
    let single = ZstdEncoder::new(params).expect("construction failed");
    let threaded_params = ZstdEncoderParams { quality: 3, num_threads: 2 };
    let threaded = ZstdEncoder::with_threads(threaded_params).expect("construction failed");
    let compressed_single = compress_chunked(&data, 1024, 256, single);
    let compressed_threaded = compress_chunked(&data, 1024, 256, threaded);
    assert_eq!(decompress(&compressed_single), data);
    assert_eq!(decompress(&compressed_threaded), data);
}

#[test]
fn ten_bytes_through_four_byte_outputs() {
    let data = b"aaaaaaaaaa".to_vec();
    assert_eq!(data.len(), 10);
    let compressed = compress_chunked(&data, data.len(), 4, default_encoder());
    let restored = decompress(&compressed);
    assert_eq!(restored.len(), 10);
    assert_eq!(restored, data);
}

#[test]
fn empty_stream_round_trips() {
    let compressed = compress_chunked(&[], 1, 64, default_encoder());
    assert_eq!(decompress(&compressed), Vec::<u8>::new());
}

#[test]
fn flush_mid_stream_keeps_the_stream_valid() {
    let data = sample_data(400);
    let mut enc = default_encoder();
    let mut compressed: Vec<u8> = Vec::new();

    let mut input = PartialBuffer::new(data[..200].to_vec());
    while input.position() < input.len() {
        let mut output = PartialBuffer::new(vec![0u8; 64]);
        enc.encode(&mut input, &mut output).expect("encode failed");
        compressed.extend_from_slice(output.written());
    }
    loop {
        let mut output = PartialBuffer::new(vec![0u8; 64]);
        let done = enc.flush(&mut output).expect("flush failed");
        compressed.extend_from_slice(output.written());
        if done {
            break;
        }
    }
    let mut input = PartialBuffer::new(data[200..].to_vec());
    while input.position() < input.len() {
        let mut output = PartialBuffer::new(vec![0u8; 64]);
        enc.encode(&mut input, &mut output).expect("encode failed");
        compressed.extend_from_slice(output.written());
    }
    loop {
        let mut output = PartialBuffer::new(vec![0u8; 64]);
        let done = enc.finish(&mut output).expect("finish failed");
        compressed.extend_from_slice(output.written());
        if done {
            break;
        }
    }
    assert_eq!(decompress(&compressed), data);
}

#[test]
fn repetitive_data_actually_shrinks() {
    let data = vec![b'a'; 1000];
    let params = ZstdEncoderParams { quality: 3, num_threads: 0 };
    let enc = ZstdEncoder::new(params).expect("construction failed");
    let compressed = compress_chunked(&data, data.len(), 4096, enc);
    assert!(compressed.len() < data.len());
    assert_eq!(decompress(&compressed), data);
}

#[test]
fn default_params_are_single_threaded_default_quality() {
    let params = ZstdEncoderParams::default();
    assert_eq!(params.quality, 0);
    assert_eq!(params.num_threads, 0);
}
