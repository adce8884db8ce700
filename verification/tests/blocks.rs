use hashes::{compress512, BlockBuffer64, Md5Core, WhirlpoolCore};

#[test]
fn md5_core_blocks() {
    let mut core = Md5Core::default();
    let block: [u8; 64] = [0, 1, 2, 3, 4, 5, 6, 7, 8, 9, 10, 11, 12, 13, 14, 15, 16, 17, 18, 19, 20, 21, 22, 23, 24, 25, 26, 27, 28, 29, 30, 31, 32, 33, 34, 35, 36, 37, 38, 39, 40, 41, 42, 43, 44, 45, 46, 47, 48, 49, 50, 51, 52, 53, 54, 55, 56, 57, 58, 59, 60, 61, 62, 63];
    core.update_blocks(&[block]);
    let mut buffer = BlockBuffer64::new();
    let tail = b"tail bytes";
    let mut i = 0;
    while i < tail.len() {
        buffer.block[buffer.pos] = tail[i];
        buffer.pos += 1;
        i += 1;
    }
    let out = core.finalize_fixed_core(&mut buffer);
    assert_eq!(out, [140, 136, 205, 184, 112, 105, 191, 170, 141, 131, 35, 75, 7, 27, 214, 145]);
}

#[test]
fn whirlpool_core_blocks() {
    let b1 = [0x11u8; 64];
    let b2 = [0x22u8; 64];
    let mut one = WhirlpoolCore::default();
    one.update_blocks(&[b1, b2]);
    let mut two = WhirlpoolCore::default();
    two.update_blocks(&[b1]);
    two.update_blocks(&[b2]);
    let mut buf_a = BlockBuffer64::new();
    let mut buf_b = BlockBuffer64::new();
    assert_eq!(one.finalize_fixed_core(&mut buf_a), two.finalize_fixed_core(&mut buf_b));
}

#[test]
fn sha512_compress_one_block() {
    let mut state: [u64; 8] = [
        0x6a09e667f3bcc908, 0xbb67ae8584caa73b, 0x3c6ef372fe94f82b, 0xa54ff53a5f1d36f1,
        0x510e527fade682d1, 0x9b05688c2b3e6c1f, 0x1f83d9abfb41bd6b, 0x5be0cd19137e2179,
    ];
    let block: [u8; 128] = [97, 98, 99, 128, 0, 0, 0, 0, 0, 0, 0, 0, 0, 0, 0, 0, 0, 0, 0, 0, 0, 0, 0, 0, 0, 0, 0, 0, 0, 0, 0, 0, 0, 0, 0, 0, 0, 0, 0, 0, 0, 0, 0, 0, 0, 0, 0, 0, 0, 0, 0, 0, 0, 0, 0, 0, 0, 0, 0, 0, 0, 0, 0, 0, 0, 0, 0, 0, 0, 0, 0, 0, 0, 0, 0, 0, 0, 0, 0, 0, 0, 0, 0, 0, 0, 0, 0, 0, 0, 0, 0, 0, 0, 0, 0, 0, 0, 0, 0, 0, 0, 0, 0, 0, 0, 0, 0, 0, 0, 0, 0, 0, 0, 0, 0, 0, 0, 0, 0, 0, 0, 0, 0, 0, 0, 0, 0, 24];
    compress512(&mut state, &[block]);
    assert_eq!(state, [0xddaf35a193617aba, 0xcc417349ae204131, 0x12e6fa4e89a97ea2, 0x0a9eeee64b55d39a, 0x2192992a274fc1a8, 0x36ba3c23a3feebbd, 0x454d4423643ce80e, 0x2a9ac94fa54ca49f]);
}

#[test]
fn sha512_compress_two_blocks() {
    let mut state: [u64; 8] = [
        0x6a09e667f3bcc908, 0xbb67ae8584caa73b, 0x3c6ef372fe94f82b, 0xa54ff53a5f1d36f1,
        0x510e527fade682d1, 0x9b05688c2b3e6c1f, 0x1f83d9abfb41bd6b, 0x5be0cd19137e2179,
    ];
    let padded: [u8; 256] = [0, 1, 2, 3, 4, 5, 6, 7, 8, 9, 10, 11, 12, 13, 14, 15, 16, 17, 18, 19, 20, 21, 22, 23, 24, 25, 26, 27, 28, 29, 30, 31, 32, 33, 34, 35, 36, 37, 38, 39, 40, 41, 42, 43, 44, 45, 46, 47, 48, 49, 50, 51, 52, 53, 54, 55, 56, 57, 58, 59, 60, 61, 62, 63, 64, 65, 66, 67, 68, 69, 70, 71, 72, 73, 74, 75, 76, 77, 78, 79, 80, 81, 82, 83, 84, 85, 86, 87, 88, 89, 90, 91, 92, 93, 94, 95, 96, 97, 98, 99, 100, 101, 102, 103, 104, 105, 106, 107, 108, 109, 110, 111, 112, 113, 114, 115, 116, 117, 118, 119, 120, 121, 122, 123, 124, 125, 126, 127, 128, 129, 130, 131, 132, 133, 134, 135, 136, 137, 138, 139, 140, 141, 142, 143, 144, 145, 146, 147, 148, 149, 150, 151, 152, 153, 154, 155, 156, 157, 158, 159, 160, 161, 162, 163, 164, 165, 166, 167, 168, 169, 170, 171, 172, 173, 174, 175, 176, 177, 178, 179, 180, 181, 182, 183, 184, 185, 186, 187, 188, 189, 190, 191, 192, 193, 194, 195, 196, 197, 198, 199, 200, 201, 202, 203, 204, 205, 206, 207, 208, 209, 210, 211, 212, 213, 214, 215, 216, 217, 218, 219, 220, 221, 222, 223, 224, 225, 226, 227, 228, 229, 128, 0, 0, 0, 0, 0, 0, 0, 0, 0, 0, 0, 0, 0, 0, 0, 0, 0, 0, 0, 0, 0, 0, 0, 7, 48];
    let mut blocks = [[0u8; 128]; 2];
    blocks[0].copy_from_slice(&padded[..128]);
    blocks[1].copy_from_slice(&padded[128..]);
    compress512(&mut state, &blocks);
    assert_eq!(state, [0x01c7d098dce4e40a, 0x69de14682587ff2a, 0x40baf9833bdcc641, 0x3ab54db0e64262f2, 0x90d584cd5b21c655, 0x8682c50e1e27bf53, 0xa18a16d72abde878, 0xc3522156c9f04de3]);

    let mut split = [
        0x6a09e667f3bcc908u64, 0xbb67ae8584caa73b, 0x3c6ef372fe94f82b, 0xa54ff53a5f1d36f1,
        0x510e527fade682d1, 0x9b05688c2b3e6c1f, 0x1f83d9abfb41bd6b, 0x5be0cd19137e2179,
    ];
    compress512(&mut split, &blocks[..1]);
    compress512(&mut split, &blocks[1..]);
    assert_eq!(split, state);
}
