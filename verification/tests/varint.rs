use rust_wasm_runtime::parse::varint::{read_i32, read_i64, read_u32, read_u64};
use rust_wasm_runtime::parse::ParsingError;

/// The position behind the first byte at or after `pos` whose high bit is
/// clear.
fn leb_end(bytes: &[u8], pos: usize) -> Option<usize> {
    (pos..bytes.len()).find(|i| bytes[*i] < 128).map(|i| i + 1)
}

/// The number that the bytes in `[from, to)` spell, seven bits per byte.
fn uleb_value(bytes: &[u8], from: usize, to: usize) -> u128 {
    if from >= to {
        0
    } else {
        (bytes[from] % 128) as u128 + 128 * uleb_value(bytes, from + 1, to)
    }
}

/// As `uleb_value`, with bit 6 of the last byte as the sign.
fn sleb_value(bytes: &[u8], from: usize, to: usize) -> i128 {
    if from >= to {
        0
    } else if from + 1 == to {
        let low = (bytes[from] % 128) as i128;
        if low >= 64 {
            low - 128
        } else {
            low
        }
    } else {
        (bytes[from] % 128) as i128 + 128 * sleb_value(bytes, from + 1, to)
    }
}

fn expected_u64(bytes: &[u8], pos: usize) -> Result<(u64, usize), ParsingError> {
    match leb_end(bytes, pos) {
        Some(end) if end - pos <= 9 || (end - pos == 10 && bytes[end - 1] <= 1) => {
            Ok((uleb_value(bytes, pos, end) as u64, end))
        }
        _ => Err(ParsingError::Leb128),
    }
}

fn expected_i64(bytes: &[u8], pos: usize) -> Result<(i64, usize), ParsingError> {
    match leb_end(bytes, pos) {
        Some(end)
            if end - pos <= 9
                || (end - pos == 10 && (bytes[end - 1] == 0 || bytes[end - 1] == 0x7F)) =>
        {
            Ok((sleb_value(bytes, pos, end) as i64, end))
        }
        _ => Err(ParsingError::Leb128),
    }
}

fn expected_u32(bytes: &[u8], pos: usize) -> Result<(u32, usize), ParsingError> {
    match expected_u64(bytes, pos) {
        Ok((value, end)) if end - pos <= 5 && value <= u32::MAX as u64 => Ok((value as u32, end)),
        _ => Err(ParsingError::Leb128),
    }
}

fn expected_i32(bytes: &[u8], pos: usize) -> Result<(i32, usize), ParsingError> {
    match expected_i64(bytes, pos) {
        Ok((value, end)) if end - pos <= 5 && i32::MIN as i64 <= value && value <= i32::MAX as i64 => {
            Ok((value as i32, end))
        }
        _ => Err(ParsingError::Leb128),
    }
}

/// A sequence of numbers that looks random and is the same on every run.
struct Sequence(u64);

impl Sequence {
    fn next(&mut self) -> u64 {
        self.0 = self.0.wrapping_mul(6364136223846793005).wrapping_add(1442695040888963407);
        self.0 >> 11
    }
}

#[test]
fn reads_agree_with_the_format_on_arbitrary_bytes() {
    let mut numbers = Sequence(0x1234_5678);
    for _ in 0..20_000 {
        let len = (numbers.next() % 14) as usize;
        let mut bytes = Vec::new();
        for _ in 0..len {
            let byte = numbers.next() as u8;
            // Most bytes continue the number, so that long numbers are met.
            bytes.push(if numbers.next() % 4 == 0 { byte & 0x7F } else { byte | 0x80 });
        }
        for tail in [0x00, 0x01, 0x02, 0x7F, 0x7E, 0x40] {
            let mut probe = bytes.clone();
            probe.push(tail);
            for pos in 0..=probe.len() {
                assert_eq!(read_u64(&probe, pos), expected_u64(&probe, pos), "{:?} at {}", probe, pos);
                assert_eq!(read_i64(&probe, pos), expected_i64(&probe, pos), "{:?} at {}", probe, pos);
                assert_eq!(read_u32(&probe, pos), expected_u32(&probe, pos), "{:?} at {}", probe, pos);
                assert_eq!(read_i32(&probe, pos), expected_i32(&probe, pos), "{:?} at {}", probe, pos);
            }
        }
    }
}

#[test]
fn reads_undo_the_writes_of_leb128() {
    let mut numbers = Sequence(0xDEAD_BEEF);
    let mut values: Vec<u64> = vec![0, 1, 63, 64, 127, 128, 255, 256, u32::MAX as u64, u64::MAX];
    for shift in 0..64 {
        values.push(1 << shift);
        values.push((1 << shift) - 1);
    }
    for _ in 0..2_000 {
        let value = numbers.next() >> (numbers.next() % 53);
        values.push(value);
    }
    for value in values {
        let mut bytes = vec![0xFF];
        let written = leb128::write::unsigned(&mut bytes, value).unwrap();
        bytes.push(0x80);
        assert_eq!(read_u64(&bytes, 1), Ok((value, 1 + written)));
        if value <= u32::MAX as u64 {
            assert_eq!(read_u32(&bytes, 1), Ok((value as u32, 1 + written)));
        } else {
            assert_eq!(read_u32(&bytes, 1), Err(ParsingError::Leb128));
        }
        for signed in [value as i64, (value as i64).wrapping_neg(), !(value as i64)] {
            let mut bytes = vec![0xFF];
            let written = leb128::write::signed(&mut bytes, signed).unwrap();
            bytes.push(0x80);
            assert_eq!(read_i64(&bytes, 1), Ok((signed, 1 + written)));
            if i32::MIN as i64 <= signed && signed <= i32::MAX as i64 {
                assert_eq!(read_i32(&bytes, 1), Ok((signed as i32, 1 + written)));
            } else {
                assert_eq!(read_i32(&bytes, 1), Err(ParsingError::Leb128));
            }
        }
    }
}
