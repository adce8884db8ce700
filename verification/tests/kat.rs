use hashes::{Md2, Md4, Md5, Ripemd160, Ripemd320, Streebog256, Streebog512, Whirlpool};

fn msg200() -> [u8; 200] {
    let mut m = [0u8; 200];
    let mut i = 0;
    while i < 200 {
        m[i] = i as u8;
        i += 1;
    }
    m
}

#[test]
fn kat_md5_empty() {
    let mut h = Md5::new();
    h.update(b"");
    let out = h.finalize();
    assert_eq!(out, [212, 29, 140, 217, 143, 0, 178, 4, 233, 128, 9, 152, 236, 248, 66, 126]);
}

#[test]
fn kat_md5_abc() {
    let mut h = Md5::new();
    h.update(b"abc");
    let out = h.finalize();
    assert_eq!(out, [144, 1, 80, 152, 60, 210, 79, 176, 214, 150, 63, 125, 40, 225, 127, 114]);
}

#[test]
fn kat_md5_a55() {
    let mut h = Md5::new();
    h.update(&[b'a'; 55]);
    let out = h.finalize();
    assert_eq!(out, [239, 23, 114, 182, 223, 249, 161, 34, 53, 133, 82, 149, 74, 208, 223, 101]);
}

#[test]
fn kat_md5_a56() {
    let mut h = Md5::new();
    h.update(&[b'a'; 56]);
    let out = h.finalize();
    assert_eq!(out, [59, 12, 138, 199, 3, 248, 40, 176, 76, 108, 25, 112, 6, 209, 114, 24]);
}

#[test]
fn kat_md5_a63() {
    let mut h = Md5::new();
    h.update(&[b'a'; 63]);
    let out = h.finalize();
    assert_eq!(out, [176, 101, 33, 243, 145, 83, 214, 24, 85, 6, 6, 190, 41, 116, 102, 213]);
}

#[test]
fn kat_md5_a64() {
    let mut h = Md5::new();
    h.update(&[b'a'; 64]);
    let out = h.finalize();
    assert_eq!(out, [1, 72, 66, 212, 128, 181, 113, 73, 90, 74, 3, 99, 121, 63, 115, 103]);
}

#[test]
fn kat_md5_a65() {
    let mut h = Md5::new();
    h.update(&[b'a'; 65]);
    let out = h.finalize();
    assert_eq!(out, [199, 67, 164, 94, 13, 46, 106, 149, 203, 133, 154, 218, 224, 36, 132, 53]);
}

#[test]
fn kat_md5_bytes200() {
    let mut h = Md5::new();
    h.update(&msg200());
    let out = h.finalize();
    assert_eq!(out, [251, 112, 1, 211, 75, 142, 130, 201, 181, 121, 190, 80, 5, 213, 176, 165]);
}

#[test]
fn kat_md5_hw() {
    let mut h = Md5::new();
    h.update(b"hello world");
    let out = h.finalize();
    assert_eq!(out, [94, 182, 59, 187, 224, 30, 238, 208, 147, 203, 34, 187, 143, 90, 205, 195]);
}

#[test]
fn kat_md4_empty() {
    let mut h = Md4::new();
    h.update(b"");
    let out = h.finalize();
    assert_eq!(out, [49, 214, 207, 224, 209, 106, 233, 49, 183, 60, 89, 215, 224, 192, 137, 192]);
}

#[test]
fn kat_md4_abc() {
    let mut h = Md4::new();
    h.update(b"abc");
    let out = h.finalize();
    assert_eq!(out, [164, 72, 1, 122, 175, 33, 216, 82, 95, 193, 10, 232, 122, 166, 114, 157]);
}

#[test]
fn kat_md4_a55() {
    let mut h = Md4::new();
    h.update(&[b'a'; 55]);
    let out = h.finalize();
    assert_eq!(out, [200, 137, 200, 29, 216, 108, 77, 46, 2, 87, 120, 148, 78, 160, 40, 129]);
}

#[test]
fn kat_md4_a56() {
    let mut h = Md4::new();
    h.update(&[b'a'; 56]);
    let out = h.finalize();
    assert_eq!(out, [213, 249, 169, 233, 37, 112, 119, 165, 240, 139, 11, 146, 243, 72, 176, 173]);
}

#[test]
fn kat_md4_a63() {
    let mut h = Md4::new();
    h.update(&[b'a'; 63]);
    let out = h.finalize();
    assert_eq!(out, [126, 163, 218, 119, 67, 45, 68, 195, 35, 103, 16, 151, 209, 52, 143, 200]);
}

#[test]
fn kat_md4_a64() {
    let mut h = Md4::new();
    h.update(&[b'a'; 64]);
    let out = h.finalize();
    assert_eq!(out, [82, 245, 7, 111, 171, 210, 38, 128, 35, 74, 63, 169, 249, 220, 87, 50]);
}

#[test]
fn kat_md4_a65() {
    let mut h = Md4::new();
    h.update(&[b'a'; 65]);
    let out = h.finalize();
    assert_eq!(out, [51, 14, 55, 123, 242, 49, 243, 202, 207, 236, 194, 193, 130, 254, 126, 91]);
}

#[test]
fn kat_md4_bytes200() {
    let mut h = Md4::new();
    h.update(&msg200());
    let out = h.finalize();
    assert_eq!(out, [241, 169, 123, 95, 241, 145, 209, 254, 158, 87, 12, 82, 154, 191, 19, 179]);
}

#[test]
fn kat_md4_hw() {
    let mut h = Md4::new();
    h.update(b"hello world");
    let out = h.finalize();
    assert_eq!(out, [170, 1, 15, 188, 29, 20, 199, 149, 216, 110, 249, 140, 149, 71, 157, 23]);
}

#[test]
fn kat_md2_empty() {
    let mut h = Md2::new();
    h.update(b"");
    let out = h.finalize();
    assert_eq!(out, [131, 80, 229, 163, 226, 76, 21, 61, 242, 39, 92, 159, 128, 105, 39, 115]);
}

#[test]
fn kat_md2_abc() {
    let mut h = Md2::new();
    h.update(b"abc");
    let out = h.finalize();
    assert_eq!(out, [218, 133, 59, 13, 63, 136, 217, 155, 48, 40, 58, 105, 230, 222, 214, 187]);
}

#[test]
fn kat_md2_a15() {
    let mut h = Md2::new();
    h.update(&[b'a'; 15]);
    let out = h.finalize();
    assert_eq!(out, [161, 55, 154, 16, 39, 208, 210, 154, 249, 130, 0, 121, 155, 141, 93, 142]);
}

#[test]
fn kat_md2_a16() {
    let mut h = Md2::new();
    h.update(&[b'a'; 16]);
    let out = h.finalize();
    assert_eq!(out, [180, 55, 174, 80, 254, 176, 154, 55, 193, 107, 76, 96, 92, 214, 66, 218]);
}

#[test]
fn kat_md2_a17() {
    let mut h = Md2::new();
    h.update(&[b'a'; 17]);
    let out = h.finalize();
    assert_eq!(out, [219, 241, 90, 95, 223, 214, 247, 233, 236, 226, 125, 94, 49, 12, 88, 237]);
}

#[test]
fn kat_md2_hw() {
    let mut h = Md2::new();
    h.update(b"hello world");
    let out = h.finalize();
    assert_eq!(out, [217, 204, 232, 130, 238, 105, 10, 92, 28, 231, 11, 239, 243, 167, 140, 119]);
}

#[test]
fn kat_rmd160_empty() {
    let mut h = Ripemd160::new();
    h.update(b"");
    let out = h.finalize();
    assert_eq!(out, [156, 17, 133, 165, 197, 233, 252, 84, 97, 40, 8, 151, 126, 232, 245, 72, 178, 37, 141, 49]);
}

#[test]
fn kat_rmd160_abc() {
    let mut h = Ripemd160::new();
    h.update(b"abc");
    let out = h.finalize();
    assert_eq!(out, [142, 178, 8, 247, 224, 93, 152, 122, 155, 4, 74, 142, 152, 198, 176, 135, 241, 90, 11, 252]);
}

#[test]
fn kat_rmd160_a55() {
    let mut h = Ripemd160::new();
    h.update(&[b'a'; 55]);
    let out = h.finalize();
    assert_eq!(out, [13, 138, 140, 144, 99, 164, 133, 118, 167, 201, 126, 159, 149, 37, 58, 110, 83, 255, 103, 101]);
}

#[test]
fn kat_rmd160_a56() {
    let mut h = Ripemd160::new();
    h.update(&[b'a'; 56]);
    let out = h.finalize();
    assert_eq!(out, [231, 35, 52, 180, 108, 131, 204, 112, 190, 249, 121, 225, 84, 83, 112, 108, 149, 184, 136, 190]);
}

#[test]
fn kat_rmd160_a63() {
    let mut h = Ripemd160::new();
    h.update(&[b'a'; 63]);
    let out = h.finalize();
    assert_eq!(out, [230, 64, 4, 18, 147, 254, 102, 59, 155, 243, 248, 194, 31, 254, 202, 192, 56, 25, 230, 178]);
}

#[test]
fn kat_rmd160_a64() {
    let mut h = Ripemd160::new();
    h.update(&[b'a'; 64]);
    let out = h.finalize();
    assert_eq!(out, [157, 251, 125, 55, 74, 217, 36, 243, 248, 141, 233, 98, 145, 195, 62, 154, 190, 213, 62, 50]);
}

#[test]
fn kat_rmd160_a65() {
    let mut h = Ripemd160::new();
    h.update(&[b'a'; 65]);
    let out = h.finalize();
    assert_eq!(out, [153, 114, 75, 177, 24, 17, 231, 22, 106, 243, 143, 103, 27, 106, 8, 45, 138, 180, 150, 11]);
}

#[test]
fn kat_rmd160_bytes200() {
    let mut h = Ripemd160::new();
    h.update(&msg200());
    let out = h.finalize();
    assert_eq!(out, [195, 21, 130, 62, 168, 254, 7, 162, 221, 24, 222, 78, 84, 82, 85, 175, 227, 175, 7, 56]);
}

#[test]
fn kat_rmd160_hw() {
    let mut h = Ripemd160::new();
    h.update(b"hello world");
    let out = h.finalize();
    assert_eq!(out, [152, 198, 21, 120, 76, 203, 95, 229, 147, 111, 188, 12, 190, 157, 253, 180, 8, 217, 47, 15]);
}

#[test]
fn kat_rmd320_empty() {
    let mut h = Ripemd320::new();
    h.update(b"");
    let out = h.finalize();
    assert_eq!(out, [34, 214, 93, 86, 97, 83, 108, 220, 117, 193, 253, 245, 198, 222, 123, 65, 185, 242, 115, 37, 235, 198, 30, 133, 87, 23, 125, 112, 90, 14, 200, 128, 21, 28, 58, 50, 160, 8, 153, 184]);
}

#[test]
fn kat_rmd320_abc() {
    let mut h = Ripemd320::new();
    h.update(b"abc");
    let out = h.finalize();
    assert_eq!(out, [222, 76, 1, 179, 5, 79, 137, 48, 167, 157, 9, 174, 115, 142, 146, 48, 30, 90, 23, 8, 91, 239, 253, 193, 184, 209, 22, 113, 62, 116, 248, 47, 169, 66, 214, 76, 219, 196, 104, 45]);
}

#[test]
fn kat_rmd320_a55() {
    let mut h = Ripemd320::new();
    h.update(&[b'a'; 55]);
    let out = h.finalize();
    assert_eq!(out, [52, 218, 39, 110, 227, 79, 4, 204, 241, 92, 83, 23, 14, 110, 113, 226, 195, 252, 122, 227, 58, 209, 112, 51, 242, 24, 92, 12, 238, 104, 50, 171, 180, 215, 65, 21, 68, 56, 197, 78]);
}

#[test]
fn kat_rmd320_a56() {
    let mut h = Ripemd320::new();
    h.update(&[b'a'; 56]);
    let out = h.finalize();
    assert_eq!(out, [196, 155, 45, 114, 21, 41, 50, 50, 188, 148, 189, 226, 22, 88, 203, 104, 230, 10, 230, 109, 130, 111, 27, 11, 142, 217, 90, 194, 125, 86, 96, 106, 167, 211, 174, 223, 138, 1, 67, 68]);
}

#[test]
fn kat_rmd320_a63() {
    let mut h = Ripemd320::new();
    h.update(&[b'a'; 63]);
    let out = h.finalize();
    assert_eq!(out, [80, 45, 187, 92, 226, 149, 76, 225, 243, 205, 6, 160, 206, 237, 231, 8, 147, 1, 196, 166, 100, 90, 205, 33, 111, 69, 33, 224, 58, 108, 233, 62, 206, 235, 134, 136, 93, 231, 193, 211]);
}

#[test]
fn kat_rmd320_a64() {
    let mut h = Ripemd320::new();
    h.update(&[b'a'; 64]);
    let out = h.finalize();
    assert_eq!(out, [110, 129, 91, 173, 207, 105, 210, 151, 140, 175, 139, 139, 186, 186, 148, 18, 57, 249, 132, 125, 31, 241, 64, 6, 36, 132, 203, 87, 160, 116, 91, 204, 242, 28, 66, 119, 5, 253, 211, 13]);
}

#[test]
fn kat_rmd320_a65() {
    let mut h = Ripemd320::new();
    h.update(&[b'a'; 65]);
    let out = h.finalize();
    assert_eq!(out, [17, 198, 67, 61, 138, 143, 48, 71, 23, 84, 73, 92, 154, 240, 220, 178, 77, 200, 33, 108, 99, 238, 84, 131, 39, 31, 176, 0, 100, 127, 141, 107, 220, 20, 135, 251, 72, 82, 22, 67]);
}

#[test]
fn kat_rmd320_bytes200() {
    let mut h = Ripemd320::new();
    h.update(&msg200());
    let out = h.finalize();
    assert_eq!(out, [89, 18, 80, 100, 247, 18, 87, 209, 253, 166, 119, 217, 220, 203, 75, 7, 98, 99, 106, 228, 74, 97, 209, 198, 196, 187, 216, 172, 124, 13, 218, 10, 75, 121, 132, 218, 250, 110, 4, 188]);
}

#[test]
fn kat_rmd320_hw() {
    let mut h = Ripemd320::new();
    h.update(b"hello world");
    let out = h.finalize();
    assert_eq!(out, [14, 18, 254, 125, 7, 95, 142, 49, 158, 7, 193, 6, 145, 126, 221, 176, 19, 94, 154, 16, 174, 251, 80, 168, 160, 124, 203, 5, 130, 255, 31, 162, 123, 149, 237, 90, 245, 127, 213, 198]);
}

#[test]
fn kat_whirl_empty() {
    let mut h = Whirlpool::new();
    h.update(b"");
    let out = h.finalize();
    assert_eq!(out, [25, 250, 97, 215, 85, 34, 164, 102, 155, 68, 227, 156, 29, 46, 23, 38, 197, 48, 35, 33, 48, 212, 7, 248, 154, 254, 224, 150, 73, 151, 247, 167, 62, 131, 190, 105, 139, 40, 143, 235, 207, 136, 227, 224, 60, 79, 7, 87, 234, 137, 100, 229, 155, 99, 217, 55, 8, 177, 56, 204, 66, 166, 110, 179]);
}

#[test]
fn kat_whirl_abc() {
    let mut h = Whirlpool::new();
    h.update(b"abc");
    let out = h.finalize();
    assert_eq!(out, [78, 36, 72, 164, 198, 244, 134, 187, 22, 182, 86, 44, 115, 180, 2, 11, 243, 4, 62, 58, 115, 27, 206, 114, 26, 225, 179, 3, 217, 126, 109, 76, 113, 129, 238, 189, 182, 197, 126, 39, 125, 14, 52, 149, 113, 20, 203, 214, 199, 151, 252, 157, 149, 216, 181, 130, 210, 37, 41, 32, 118, 212, 238, 245]);
}

#[test]
fn kat_whirl_a55() {
    let mut h = Whirlpool::new();
    h.update(&[b'a'; 55]);
    let out = h.finalize();
    assert_eq!(out, [210, 173, 23, 204, 28, 123, 223, 74, 209, 244, 181, 196, 79, 1, 177, 110, 56, 193, 137, 243, 14, 129, 168, 245, 189, 66, 42, 169, 100, 97, 153, 31, 71, 177, 121, 164, 124, 176, 14, 147, 194, 230, 16, 59, 203, 23, 8, 240, 64, 140, 96, 115, 181, 187, 238, 202, 51, 248, 66, 227, 171, 22, 26, 93]);
}

#[test]
fn kat_whirl_a56() {
    let mut h = Whirlpool::new();
    h.update(&[b'a'; 56]);
    let out = h.finalize();
    assert_eq!(out, [189, 109, 178, 115, 77, 2, 62, 138, 181, 19, 19, 144, 164, 211, 231, 48, 194, 66, 44, 141, 118, 146, 210, 1, 81, 32, 31, 228, 142, 255, 209, 63, 43, 69, 245, 63, 0, 2, 252, 7, 30, 248, 106, 220, 97, 249, 43, 145, 166, 235, 79, 170, 178, 202, 34, 231, 147, 101, 114, 70, 230, 251, 226, 217]);
}

#[test]
fn kat_whirl_a63() {
    let mut h = Whirlpool::new();
    h.update(&[b'a'; 63]);
    let out = h.finalize();
    assert_eq!(out, [220, 169, 134, 18, 99, 13, 242, 38, 151, 238, 220, 47, 37, 151, 111, 82, 48, 74, 93, 225, 179, 32, 49, 27, 82, 100, 44, 139, 191, 56, 150, 171, 162, 96, 102, 182, 95, 154, 162, 18, 33, 159, 101, 53, 236, 226, 91, 65, 128, 19, 253, 185, 89, 10, 72, 242, 221, 61, 246, 63, 51, 250, 123, 104]);
}

#[test]
fn kat_whirl_a64() {
    let mut h = Whirlpool::new();
    h.update(&[b'a'; 64]);
    let out = h.finalize();
    assert_eq!(out, [58, 177, 64, 6, 112, 185, 195, 123, 194, 66, 116, 87, 138, 172, 51, 30, 183, 21, 1, 103, 197, 152, 198, 194, 71, 188, 221, 138, 229, 75, 229, 72, 71, 15, 205, 195, 113, 143, 39, 108, 235, 195, 36, 210, 201, 179, 91, 107, 71, 72, 217, 162, 105, 133, 217, 183, 149, 99, 247, 226, 137, 13, 163, 138]);
}

#[test]
fn kat_whirl_a65() {
    let mut h = Whirlpool::new();
    h.update(&[b'a'; 65]);
    let out = h.finalize();
    assert_eq!(out, [76, 240, 169, 244, 189, 203, 224, 104, 170, 248, 254, 34, 23, 255, 27, 129, 45, 118, 223, 35, 68, 205, 99, 169, 118, 24, 44, 166, 170, 25, 243, 212, 152, 206, 222, 199, 207, 236, 172, 106, 195, 116, 2, 136, 79, 80, 6, 141, 38, 159, 103, 129, 104, 78, 31, 38, 17, 137, 180, 43, 168, 88, 29, 66]);
}

#[test]
fn kat_whirl_bytes200() {
    let mut h = Whirlpool::new();
    h.update(&msg200());
    let out = h.finalize();
    assert_eq!(out, [80, 204, 105, 120, 33, 145, 203, 75, 218, 137, 117, 57, 30, 231, 48, 123, 162, 153, 17, 214, 23, 204, 22, 34, 134, 134, 78, 212, 14, 30, 66, 108, 144, 134, 31, 243, 180, 138, 216, 171, 150, 104, 145, 239, 72, 98, 68, 31, 135, 71, 204, 191, 77, 56, 160, 149, 154, 19, 187, 155, 236, 230, 152, 214]);
}

#[test]
fn kat_whirl_hw() {
    let mut h = Whirlpool::new();
    h.update(b"hello world");
    let out = h.finalize();
    assert_eq!(out, [141, 131, 9, 202, 106, 248, 72, 9, 91, 202, 186, 249, 165, 59, 27, 108, 231, 245, 148, 193, 67, 79, 214, 229, 23, 126, 126, 92, 32, 231, 108, 211, 9, 54, 216, 96, 110, 127, 54, 172, 190, 248, 151, 143, 234, 0, 142, 100, 0, 169, 117, 213, 26, 190, 107, 164, 146, 49, 120, 199, 207, 144, 200, 2]);
}

#[test]
fn kat_whirl_a31() {
    let mut h = Whirlpool::new();
    h.update(&[b'a'; 31]);
    let out = h.finalize();
    assert_eq!(out, [105, 141, 37, 130, 110, 80, 191, 209, 244, 230, 122, 29, 219, 224, 212, 15, 172, 0, 196, 184, 244, 155, 209, 127, 112, 110, 47, 76, 92, 129, 50, 73, 168, 162, 183, 113, 172, 236, 42, 116, 37, 194, 4, 6, 172, 188, 103, 42, 43, 200, 58, 98, 21, 10, 247, 143, 13, 128, 77, 56, 38, 88, 175, 5]);
}

#[test]
fn kat_whirl_a32() {
    let mut h = Whirlpool::new();
    h.update(&[b'a'; 32]);
    let out = h.finalize();
    assert_eq!(out, [102, 31, 232, 94, 48, 42, 16, 11, 200, 80, 72, 67, 138, 115, 77, 33, 158, 12, 0, 108, 132, 100, 241, 14, 178, 40, 17, 148, 219, 33, 211, 178, 54, 250, 187, 73, 120, 24, 246, 53, 17, 166, 59, 231, 225, 197, 234, 64, 9, 160, 249, 55, 4, 15, 75, 192, 128, 166, 138, 47, 255, 88, 157, 171]);
}

#[test]
fn kat_stb256_empty() {
    let mut h = Streebog256::new();
    h.update(b"");
    let out = h.finalize();
    assert_eq!(out, [63, 83, 154, 33, 62, 151, 200, 2, 204, 34, 157, 71, 76, 106, 163, 42, 130, 90, 54, 11, 42, 147, 58, 148, 159, 217, 37, 32, 141, 156, 225, 187]);
}

#[test]
fn kat_stb256_abc() {
    let mut h = Streebog256::new();
    h.update(b"abc");
    let out = h.finalize();
    assert_eq!(out, [78, 41, 25, 207, 19, 126, 212, 30, 196, 251, 98, 112, 198, 24, 38, 204, 79, 255, 182, 96, 52, 30, 10, 243, 104, 140, 208, 98, 109, 35, 180, 129]);
}

#[test]
fn kat_stb256_a55() {
    let mut h = Streebog256::new();
    h.update(&[b'a'; 55]);
    let out = h.finalize();
    assert_eq!(out, [93, 205, 79, 124, 98, 121, 5, 215, 43, 239, 28, 181, 18, 185, 106, 155, 18, 235, 11, 53, 106, 202, 107, 80, 228, 86, 208, 210, 73, 15, 56, 41]);
}

#[test]
fn kat_stb256_a56() {
    let mut h = Streebog256::new();
    h.update(&[b'a'; 56]);
    let out = h.finalize();
    assert_eq!(out, [50, 22, 86, 149, 247, 184, 156, 57, 215, 143, 61, 88, 49, 187, 89, 64, 72, 246, 31, 222, 106, 175, 196, 201, 199, 205, 191, 248, 107, 212, 115, 253]);
}

#[test]
fn kat_stb256_a63() {
    let mut h = Streebog256::new();
    h.update(&[b'a'; 63]);
    let out = h.finalize();
    assert_eq!(out, [194, 211, 89, 119, 126, 206, 17, 7, 223, 108, 104, 153, 36, 127, 196, 205, 84, 146, 208, 227, 166, 0, 101, 150, 90, 203, 90, 91, 248, 128, 125, 210]);
}

#[test]
fn kat_stb256_a64() {
    let mut h = Streebog256::new();
    h.update(&[b'a'; 64]);
    let out = h.finalize();
    assert_eq!(out, [194, 206, 9, 105, 182, 228, 104, 68, 94, 207, 174, 216, 159, 97, 65, 120, 248, 156, 195, 122, 181, 149, 35, 82, 138, 88, 116, 80, 7, 243, 58, 178]);
}

#[test]
fn kat_stb256_a65() {
    let mut h = Streebog256::new();
    h.update(&[b'a'; 65]);
    let out = h.finalize();
    assert_eq!(out, [238, 214, 157, 173, 228, 0, 16, 138, 87, 224, 84, 240, 61, 214, 148, 171, 18, 130, 7, 206, 250, 174, 76, 86, 21, 158, 19, 68, 46, 63, 3, 249]);
}

#[test]
fn kat_stb256_bytes200() {
    let mut h = Streebog256::new();
    h.update(&msg200());
    let out = h.finalize();
    assert_eq!(out, [195, 198, 98, 215, 54, 196, 70, 177, 226, 147, 126, 156, 74, 19, 228, 176, 225, 198, 152, 28, 242, 103, 244, 109, 178, 161, 99, 216, 111, 113, 99, 0]);
}

#[test]
fn kat_stb256_hw() {
    let mut h = Streebog256::new();
    h.update(b"hello world");
    let out = h.finalize();
    assert_eq!(out, [198, 0, 253, 157, 208, 73, 207, 138, 189, 47, 91, 50, 232, 64, 210, 203, 14, 65, 234, 68, 222, 28, 21, 93, 205, 136, 220, 132, 254, 88, 168, 85]);
}

#[test]
fn kat_stb256_m1() {
    let mut h = Streebog256::new();
    h.update(b"012345678901234567890123456789012345678901234567890123456789012");
    let out = h.finalize();
    assert_eq!(out, [157, 21, 30, 239, 216, 89, 11, 137, 218, 166, 186, 108, 183, 74, 249, 39, 93, 208, 81, 2, 107, 177, 73, 164, 82, 253, 132, 229, 229, 123, 85, 0]);
}

#[test]
fn kat_stb512_empty() {
    let mut h = Streebog512::new();
    h.update(b"");
    let out = h.finalize();
    assert_eq!(out, [142, 148, 93, 162, 9, 170, 134, 159, 4, 85, 146, 133, 41, 188, 174, 70, 121, 233, 135, 58, 183, 7, 181, 83, 21, 245, 108, 235, 152, 190, 240, 167, 54, 47, 113, 85, 40, 53, 110, 232, 60, 218, 95, 42, 172, 76, 106, 210, 186, 58, 113, 92, 27, 205, 129, 203, 142, 159, 144, 191, 76, 28, 26, 138]);
}

#[test]
fn kat_stb512_abc() {
    let mut h = Streebog512::new();
    h.update(b"abc");
    let out = h.finalize();
    assert_eq!(out, [40, 21, 110, 40, 49, 125, 167, 201, 143, 79, 226, 190, 214, 181, 66, 208, 218, 184, 91, 178, 36, 68, 95, 206, 218, 247, 93, 70, 226, 109, 126, 184, 213, 153, 127, 62, 9, 21, 221, 107, 127, 10, 171, 8, 217, 200, 190, 176, 216, 198, 75, 174, 42, 184, 179, 200, 198, 188, 83, 179, 191, 13, 183, 40]);
}

#[test]
fn kat_stb512_a55() {
    let mut h = Streebog512::new();
    h.update(&[b'a'; 55]);
    let out = h.finalize();
    assert_eq!(out, [247, 193, 186, 155, 33, 58, 19, 133, 68, 75, 51, 136, 243, 26, 182, 23, 16, 7, 124, 143, 239, 177, 202, 207, 104, 193, 113, 132, 84, 166, 139, 98, 192, 179, 239, 206, 155, 130, 158, 9, 197, 2, 139, 6, 122, 148, 23, 168, 17, 92, 52, 90, 197, 115, 145, 236, 224, 224, 17, 120, 9, 223, 18, 43]);
}

#[test]
fn kat_stb512_a56() {
    let mut h = Streebog512::new();
    h.update(&[b'a'; 56]);
    let out = h.finalize();
    assert_eq!(out, [249, 116, 234, 122, 183, 72, 94, 185, 70, 180, 75, 47, 252, 71, 225, 21, 32, 192, 248, 46, 4, 65, 227, 75, 44, 93, 160, 55, 26, 220, 131, 132, 157, 147, 157, 99, 56, 9, 110, 185, 149, 155, 187, 63, 96, 47, 92, 248, 66, 87, 152, 87, 50, 195, 63, 191, 64, 97, 26, 120, 162, 197, 115, 70]);
}

#[test]
fn kat_stb512_a63() {
    let mut h = Streebog512::new();
    h.update(&[b'a'; 63]);
    let out = h.finalize();
    assert_eq!(out, [171, 19, 222, 103, 25, 90, 186, 164, 157, 254, 205, 143, 189, 21, 44, 144, 88, 188, 133, 252, 93, 91, 182, 67, 107, 30, 145, 187, 46, 161, 250, 66, 68, 239, 195, 178, 171, 48, 141, 190, 45, 120, 251, 70, 180, 198, 48, 78, 142, 95, 199, 188, 59, 253, 232, 232, 242, 119, 194, 64, 125, 132, 84, 72]);
}

#[test]
fn kat_stb512_a64() {
    let mut h = Streebog512::new();
    h.update(&[b'a'; 64]);
    let out = h.finalize();
    assert_eq!(out, [97, 56, 82, 7, 108, 161, 17, 86, 207, 125, 0, 244, 254, 239, 13, 94, 49, 152, 230, 56, 248, 226, 14, 176, 45, 162, 245, 247, 220, 165, 182, 45, 217, 251, 136, 226, 46, 130, 95, 114, 126, 214, 242, 94, 65, 69, 220, 134, 141, 14, 244, 30, 62, 69, 30, 52, 183, 128, 229, 84, 122, 222, 13, 67]);
}

#[test]
fn kat_stb512_a65() {
    let mut h = Streebog512::new();
    h.update(&[b'a'; 65]);
    let out = h.finalize();
    assert_eq!(out, [66, 186, 248, 241, 113, 29, 71, 182, 222, 99, 85, 151, 67, 208, 159, 94, 17, 201, 163, 72, 190, 167, 59, 139, 179, 254, 17, 190, 14, 192, 246, 2, 152, 86, 215, 11, 147, 106, 0, 247, 65, 75, 95, 30, 189, 142, 43, 218, 167, 79, 58, 137, 59, 144, 151, 141, 169, 202, 220, 183, 42, 229, 3, 56]);
}

#[test]
fn kat_stb512_bytes200() {
    let mut h = Streebog512::new();
    h.update(&msg200());
    let out = h.finalize();
    assert_eq!(out, [67, 148, 107, 46, 141, 88, 203, 114, 125, 249, 175, 250, 31, 255, 161, 152, 132, 174, 196, 33, 86, 240, 147, 49, 56, 174, 248, 33, 169, 168, 128, 158, 173, 125, 57, 192, 97, 248, 87, 52, 245, 233, 123, 82, 233, 157, 72, 19, 183, 29, 4, 210, 243, 159, 131, 138, 231, 166, 189, 37, 109, 3, 250, 4]);
}

#[test]
fn kat_stb512_hw() {
    let mut h = Streebog512::new();
    h.update(b"hello world");
    let out = h.finalize();
    assert_eq!(out, [132, 216, 131, 237, 233, 250, 108, 232, 85, 216, 45, 140, 39, 142, 205, 159, 95, 200, 139, 240, 96, 40, 49, 174, 12, 56, 185, 181, 6, 234, 60, 176, 47, 63, 160, 118, 184, 245, 102, 74, 223, 31, 248, 98, 192, 21, 125, 164, 204, 154, 131, 225, 65, 183, 56, 255, 146, 104, 169, 186, 62, 214, 245, 99]);
}

#[test]
fn kat_stb512_m1() {
    let mut h = Streebog512::new();
    h.update(b"012345678901234567890123456789012345678901234567890123456789012");
    let out = h.finalize();
    assert_eq!(out, [27, 84, 208, 26, 74, 245, 185, 213, 204, 61, 134, 214, 141, 40, 84, 98, 177, 154, 188, 36, 117, 34, 47, 53, 192, 133, 18, 43, 228, 186, 31, 250, 0, 173, 48, 248, 118, 123, 58, 130, 56, 76, 101, 116, 240, 36, 195, 17, 226, 164, 129, 51, 43, 8, 239, 127, 65, 121, 120, 145, 193, 100, 111, 72]);
}

