use hashes::{Md2, Md4, Md5, Ripemd160, Ripemd320, Streebog256, Streebog512, Whirlpool};

#[test]
fn chunks_md5() {
    let mut m = [0u8; 200];
    let mut i = 0;
    while i < 200 {
        m[i] = i as u8;
        i += 1;
    }
    let mut one = Md5::new();
    one.update(&m);
    let expected = one.finalize();
    assert_eq!(expected, [251, 112, 1, 211, 75, 142, 130, 201, 181, 121, 190, 80, 5, 213, 176, 165]);
    for split in [1usize, 7, 63, 64, 65, 128, 199] {
        let mut h = Md5::new();
        let mut off = 0;
        while off < m.len() {
            let end = (off + split).min(m.len());
            h.update(&m[off..end]);
            off = end;
        }
        assert_eq!(h.finalize(), expected);
    }
    let mut empty_chunks = Md5::new();
    empty_chunks.update(b"");
    empty_chunks.update(&m[..100]);
    empty_chunks.update(b"");
    empty_chunks.update(&m[100..]);
    assert_eq!(empty_chunks.finalize(), expected);
}

#[test]
fn chunks_md4() {
    let mut m = [0u8; 200];
    let mut i = 0;
    while i < 200 {
        m[i] = i as u8;
        i += 1;
    }
    let mut one = Md4::new();
    one.update(&m);
    let expected = one.finalize();
    assert_eq!(expected, [241, 169, 123, 95, 241, 145, 209, 254, 158, 87, 12, 82, 154, 191, 19, 179]);
    for split in [1usize, 7, 63, 64, 65, 128, 199] {
        let mut h = Md4::new();
        let mut off = 0;
        while off < m.len() {
            let end = (off + split).min(m.len());
            h.update(&m[off..end]);
            off = end;
        }
        assert_eq!(h.finalize(), expected);
    }
    let mut empty_chunks = Md4::new();
    empty_chunks.update(b"");
    empty_chunks.update(&m[..100]);
    empty_chunks.update(b"");
    empty_chunks.update(&m[100..]);
    assert_eq!(empty_chunks.finalize(), expected);
}

#[test]
fn chunks_rmd160() {
    let mut m = [0u8; 200];
    let mut i = 0;
    while i < 200 {
        m[i] = i as u8;
        i += 1;
    }
    let mut one = Ripemd160::new();
    one.update(&m);
    let expected = one.finalize();
    assert_eq!(expected, [195, 21, 130, 62, 168, 254, 7, 162, 221, 24, 222, 78, 84, 82, 85, 175, 227, 175, 7, 56]);
    for split in [1usize, 7, 63, 64, 65, 128, 199] {
        let mut h = Ripemd160::new();
        let mut off = 0;
        while off < m.len() {
            let end = (off + split).min(m.len());
            h.update(&m[off..end]);
            off = end;
        }
        assert_eq!(h.finalize(), expected);
    }
    let mut empty_chunks = Ripemd160::new();
    empty_chunks.update(b"");
    empty_chunks.update(&m[..100]);
    empty_chunks.update(b"");
    empty_chunks.update(&m[100..]);
    assert_eq!(empty_chunks.finalize(), expected);
}

#[test]
fn chunks_rmd320() {
    let mut m = [0u8; 200];
    let mut i = 0;
    while i < 200 {
        m[i] = i as u8;
        i += 1;
    }
    let mut one = Ripemd320::new();
    one.update(&m);
    let expected = one.finalize();
    assert_eq!(expected, [89, 18, 80, 100, 247, 18, 87, 209, 253, 166, 119, 217, 220, 203, 75, 7, 98, 99, 106, 228, 74, 97, 209, 198, 196, 187, 216, 172, 124, 13, 218, 10, 75, 121, 132, 218, 250, 110, 4, 188]);
    for split in [1usize, 7, 63, 64, 65, 128, 199] {
        let mut h = Ripemd320::new();
        let mut off = 0;
        while off < m.len() {
            let end = (off + split).min(m.len());
            h.update(&m[off..end]);
            off = end;
        }
        assert_eq!(h.finalize(), expected);
    }
    let mut empty_chunks = Ripemd320::new();
    empty_chunks.update(b"");
    empty_chunks.update(&m[..100]);
    empty_chunks.update(b"");
    empty_chunks.update(&m[100..]);
    assert_eq!(empty_chunks.finalize(), expected);
}

#[test]
fn chunks_whirl() {
    let mut m = [0u8; 200];
    let mut i = 0;
    while i < 200 {
        m[i] = i as u8;
        i += 1;
    }
    let mut one = Whirlpool::new();
    one.update(&m);
    let expected = one.finalize();
    assert_eq!(expected, [80, 204, 105, 120, 33, 145, 203, 75, 218, 137, 117, 57, 30, 231, 48, 123, 162, 153, 17, 214, 23, 204, 22, 34, 134, 134, 78, 212, 14, 30, 66, 108, 144, 134, 31, 243, 180, 138, 216, 171, 150, 104, 145, 239, 72, 98, 68, 31, 135, 71, 204, 191, 77, 56, 160, 149, 154, 19, 187, 155, 236, 230, 152, 214]);
    for split in [1usize, 7, 63, 64, 65, 128, 199] {
        let mut h = Whirlpool::new();
        let mut off = 0;
        while off < m.len() {
            let end = (off + split).min(m.len());
            h.update(&m[off..end]);
            off = end;
        }
        assert_eq!(h.finalize(), expected);
    }
    let mut empty_chunks = Whirlpool::new();
    empty_chunks.update(b"");
    empty_chunks.update(&m[..100]);
    empty_chunks.update(b"");
    empty_chunks.update(&m[100..]);
    assert_eq!(empty_chunks.finalize(), expected);
}

#[test]
fn chunks_stb256() {
    let mut m = [0u8; 200];
    let mut i = 0;
    while i < 200 {
        m[i] = i as u8;
        i += 1;
    }
    let mut one = Streebog256::new();
    one.update(&m);
    let expected = one.finalize();
    assert_eq!(expected, [195, 198, 98, 215, 54, 196, 70, 177, 226, 147, 126, 156, 74, 19, 228, 176, 225, 198, 152, 28, 242, 103, 244, 109, 178, 161, 99, 216, 111, 113, 99, 0]);
    for split in [1usize, 7, 63, 64, 65, 128, 199] {
        let mut h = Streebog256::new();
        let mut off = 0;
        while off < m.len() {
            let end = (off + split).min(m.len());
            h.update(&m[off..end]);
            off = end;
        }
        assert_eq!(h.finalize(), expected);
    }
    let mut empty_chunks = Streebog256::new();
    empty_chunks.update(b"");
    empty_chunks.update(&m[..100]);
    empty_chunks.update(b"");
    empty_chunks.update(&m[100..]);
    assert_eq!(empty_chunks.finalize(), expected);
}

#[test]
fn chunks_stb512() {
    let mut m = [0u8; 200];
    let mut i = 0;
    while i < 200 {
        m[i] = i as u8;
        i += 1;
    }
    let mut one = Streebog512::new();
    one.update(&m);
    let expected = one.finalize();
    assert_eq!(expected, [67, 148, 107, 46, 141, 88, 203, 114, 125, 249, 175, 250, 31, 255, 161, 152, 132, 174, 196, 33, 86, 240, 147, 49, 56, 174, 248, 33, 169, 168, 128, 158, 173, 125, 57, 192, 97, 248, 87, 52, 245, 233, 123, 82, 233, 157, 72, 19, 183, 29, 4, 210, 243, 159, 131, 138, 231, 166, 189, 37, 109, 3, 250, 4]);
    for split in [1usize, 7, 63, 64, 65, 128, 199] {
        let mut h = Streebog512::new();
        let mut off = 0;
        while off < m.len() {
            let end = (off + split).min(m.len());
            h.update(&m[off..end]);
            off = end;
        }
        assert_eq!(h.finalize(), expected);
    }
    let mut empty_chunks = Streebog512::new();
    empty_chunks.update(b"");
    empty_chunks.update(&m[..100]);
    empty_chunks.update(b"");
    empty_chunks.update(&m[100..]);
    assert_eq!(empty_chunks.finalize(), expected);
}

#[test]
fn reset_md5() {
    let mut h = Md5::new();
    h.update(b"abc");
    let first = h.finalize();
    assert_eq!(first, [144, 1, 80, 152, 60, 210, 79, 176, 214, 150, 63, 125, 40, 225, 127, 114]);
    h.reset();
    h.update(b"hello world");
    assert_eq!(h.finalize(), [94, 182, 59, 187, 224, 30, 238, 208, 147, 203, 34, 187, 143, 90, 205, 195]);
    h.reset();
    h.update(b"abc");
    assert_eq!(h.finalize(), [144, 1, 80, 152, 60, 210, 79, 176, 214, 150, 63, 125, 40, 225, 127, 114]);
}

#[test]
fn reset_md4() {
    let mut h = Md4::new();
    h.update(b"abc");
    let first = h.finalize();
    assert_eq!(first, [164, 72, 1, 122, 175, 33, 216, 82, 95, 193, 10, 232, 122, 166, 114, 157]);
    h.reset();
    h.update(b"hello world");
    assert_eq!(h.finalize(), [170, 1, 15, 188, 29, 20, 199, 149, 216, 110, 249, 140, 149, 71, 157, 23]);
    h.reset();
    h.update(b"abc");
    assert_eq!(h.finalize(), [164, 72, 1, 122, 175, 33, 216, 82, 95, 193, 10, 232, 122, 166, 114, 157]);
}

#[test]
fn reset_md2() {
    let mut h = Md2::new();
    h.update(b"abc");
    let first = h.finalize();
    assert_eq!(first, [218, 133, 59, 13, 63, 136, 217, 155, 48, 40, 58, 105, 230, 222, 214, 187]);
    h.reset();
    h.update(b"hello world");
    assert_eq!(h.finalize(), [217, 204, 232, 130, 238, 105, 10, 92, 28, 231, 11, 239, 243, 167, 140, 119]);
    h.reset();
    h.update(b"abc");
    assert_eq!(h.finalize(), [218, 133, 59, 13, 63, 136, 217, 155, 48, 40, 58, 105, 230, 222, 214, 187]);
}

#[test]
fn reset_rmd160() {
    let mut h = Ripemd160::new();
    h.update(b"abc");
    let first = h.finalize();
    assert_eq!(first, [142, 178, 8, 247, 224, 93, 152, 122, 155, 4, 74, 142, 152, 198, 176, 135, 241, 90, 11, 252]);
    h.reset();
    h.update(b"hello world");
    assert_eq!(h.finalize(), [152, 198, 21, 120, 76, 203, 95, 229, 147, 111, 188, 12, 190, 157, 253, 180, 8, 217, 47, 15]);
    h.reset();
    h.update(b"abc");
    assert_eq!(h.finalize(), [142, 178, 8, 247, 224, 93, 152, 122, 155, 4, 74, 142, 152, 198, 176, 135, 241, 90, 11, 252]);
}

#[test]
fn reset_rmd320() {
    let mut h = Ripemd320::new();
    h.update(b"abc");
    let first = h.finalize();
    assert_eq!(first, [222, 76, 1, 179, 5, 79, 137, 48, 167, 157, 9, 174, 115, 142, 146, 48, 30, 90, 23, 8, 91, 239, 253, 193, 184, 209, 22, 113, 62, 116, 248, 47, 169, 66, 214, 76, 219, 196, 104, 45]);
    h.reset();
    h.update(b"hello world");
    assert_eq!(h.finalize(), [14, 18, 254, 125, 7, 95, 142, 49, 158, 7, 193, 6, 145, 126, 221, 176, 19, 94, 154, 16, 174, 251, 80, 168, 160, 124, 203, 5, 130, 255, 31, 162, 123, 149, 237, 90, 245, 127, 213, 198]);
    h.reset();
    h.update(b"abc");
    assert_eq!(h.finalize(), [222, 76, 1, 179, 5, 79, 137, 48, 167, 157, 9, 174, 115, 142, 146, 48, 30, 90, 23, 8, 91, 239, 253, 193, 184, 209, 22, 113, 62, 116, 248, 47, 169, 66, 214, 76, 219, 196, 104, 45]);
}

#[test]
fn reset_whirl() {
    let mut h = Whirlpool::new();
    h.update(b"abc");
    let first = h.finalize();
    assert_eq!(first, [78, 36, 72, 164, 198, 244, 134, 187, 22, 182, 86, 44, 115, 180, 2, 11, 243, 4, 62, 58, 115, 27, 206, 114, 26, 225, 179, 3, 217, 126, 109, 76, 113, 129, 238, 189, 182, 197, 126, 39, 125, 14, 52, 149, 113, 20, 203, 214, 199, 151, 252, 157, 149, 216, 181, 130, 210, 37, 41, 32, 118, 212, 238, 245]);
    h.reset();
    h.update(b"hello world");
    assert_eq!(h.finalize(), [141, 131, 9, 202, 106, 248, 72, 9, 91, 202, 186, 249, 165, 59, 27, 108, 231, 245, 148, 193, 67, 79, 214, 229, 23, 126, 126, 92, 32, 231, 108, 211, 9, 54, 216, 96, 110, 127, 54, 172, 190, 248, 151, 143, 234, 0, 142, 100, 0, 169, 117, 213, 26, 190, 107, 164, 146, 49, 120, 199, 207, 144, 200, 2]);
    h.reset();
    h.update(b"abc");
    assert_eq!(h.finalize(), [78, 36, 72, 164, 198, 244, 134, 187, 22, 182, 86, 44, 115, 180, 2, 11, 243, 4, 62, 58, 115, 27, 206, 114, 26, 225, 179, 3, 217, 126, 109, 76, 113, 129, 238, 189, 182, 197, 126, 39, 125, 14, 52, 149, 113, 20, 203, 214, 199, 151, 252, 157, 149, 216, 181, 130, 210, 37, 41, 32, 118, 212, 238, 245]);
}

#[test]
fn reset_stb256() {
    let mut h = Streebog256::new();
    h.update(b"abc");
    let first = h.finalize();
    assert_eq!(first, [78, 41, 25, 207, 19, 126, 212, 30, 196, 251, 98, 112, 198, 24, 38, 204, 79, 255, 182, 96, 52, 30, 10, 243, 104, 140, 208, 98, 109, 35, 180, 129]);
    h.reset();
    h.update(b"hello world");
    assert_eq!(h.finalize(), [198, 0, 253, 157, 208, 73, 207, 138, 189, 47, 91, 50, 232, 64, 210, 203, 14, 65, 234, 68, 222, 28, 21, 93, 205, 136, 220, 132, 254, 88, 168, 85]);
    h.reset();
    h.update(b"abc");
    assert_eq!(h.finalize(), [78, 41, 25, 207, 19, 126, 212, 30, 196, 251, 98, 112, 198, 24, 38, 204, 79, 255, 182, 96, 52, 30, 10, 243, 104, 140, 208, 98, 109, 35, 180, 129]);
}

#[test]
fn reset_stb512() {
    let mut h = Streebog512::new();
    h.update(b"abc");
    let first = h.finalize();
    assert_eq!(first, [40, 21, 110, 40, 49, 125, 167, 201, 143, 79, 226, 190, 214, 181, 66, 208, 218, 184, 91, 178, 36, 68, 95, 206, 218, 247, 93, 70, 226, 109, 126, 184, 213, 153, 127, 62, 9, 21, 221, 107, 127, 10, 171, 8, 217, 200, 190, 176, 216, 198, 75, 174, 42, 184, 179, 200, 198, 188, 83, 179, 191, 13, 183, 40]);
    h.reset();
    h.update(b"hello world");
    assert_eq!(h.finalize(), [132, 216, 131, 237, 233, 250, 108, 232, 85, 216, 45, 140, 39, 142, 205, 159, 95, 200, 139, 240, 96, 40, 49, 174, 12, 56, 185, 181, 6, 234, 60, 176, 47, 63, 160, 118, 184, 245, 102, 74, 223, 31, 248, 98, 192, 21, 125, 164, 204, 154, 131, 225, 65, 183, 56, 255, 146, 104, 169, 186, 62, 214, 245, 99]);
    h.reset();
    h.update(b"abc");
    assert_eq!(h.finalize(), [40, 21, 110, 40, 49, 125, 167, 201, 143, 79, 226, 190, 214, 181, 66, 208, 218, 184, 91, 178, 36, 68, 95, 206, 218, 247, 93, 70, 226, 109, 126, 184, 213, 153, 127, 62, 9, 21, 221, 107, 127, 10, 171, 8, 217, 200, 190, 176, 216, 198, 75, 174, 42, 184, 179, 200, 198, 188, 83, 179, 191, 13, 183, 40]);
}

#[test]
fn fork_md5() {
    let mut h = Md5::new();
    h.update(b"hello ");
    let mut g = h.clone();
    h.update(b"world");
    g.update(b"world");
    let a = h.finalize();
    let b = g.finalize();
    assert_eq!(a, b);
    assert_eq!(a, [94, 182, 59, 187, 224, 30, 238, 208, 147, 203, 34, 187, 143, 90, 205, 195]);
}

#[test]
fn fork_md4() {
    let mut h = Md4::new();
    h.update(b"hello ");
    let mut g = h.clone();
    h.update(b"world");
    g.update(b"world");
    let a = h.finalize();
    let b = g.finalize();
    assert_eq!(a, b);
    assert_eq!(a, [170, 1, 15, 188, 29, 20, 199, 149, 216, 110, 249, 140, 149, 71, 157, 23]);
}

#[test]
fn fork_md2() {
    let mut h = Md2::new();
    h.update(b"hello ");
    let mut g = h.clone();
    h.update(b"world");
    g.update(b"world");
    let a = h.finalize();
    let b = g.finalize();
    assert_eq!(a, b);
    assert_eq!(a, [217, 204, 232, 130, 238, 105, 10, 92, 28, 231, 11, 239, 243, 167, 140, 119]);
}

#[test]
fn fork_rmd160() {
    let mut h = Ripemd160::new();
    h.update(b"hello ");
    let mut g = h.clone();
    h.update(b"world");
    g.update(b"world");
    let a = h.finalize();
    let b = g.finalize();
    assert_eq!(a, b);
    assert_eq!(a, [152, 198, 21, 120, 76, 203, 95, 229, 147, 111, 188, 12, 190, 157, 253, 180, 8, 217, 47, 15]);
}

#[test]
fn fork_rmd320() {
    let mut h = Ripemd320::new();
    h.update(b"hello ");
    let mut g = h.clone();
    h.update(b"world");
    g.update(b"world");
    let a = h.finalize();
    let b = g.finalize();
    assert_eq!(a, b);
    assert_eq!(a, [14, 18, 254, 125, 7, 95, 142, 49, 158, 7, 193, 6, 145, 126, 221, 176, 19, 94, 154, 16, 174, 251, 80, 168, 160, 124, 203, 5, 130, 255, 31, 162, 123, 149, 237, 90, 245, 127, 213, 198]);
}

#[test]
fn fork_whirl() {
    let mut h = Whirlpool::new();
    h.update(b"hello ");
    let mut g = h.clone();
    h.update(b"world");
    g.update(b"world");
    let a = h.finalize();
    let b = g.finalize();
    assert_eq!(a, b);
    assert_eq!(a, [141, 131, 9, 202, 106, 248, 72, 9, 91, 202, 186, 249, 165, 59, 27, 108, 231, 245, 148, 193, 67, 79, 214, 229, 23, 126, 126, 92, 32, 231, 108, 211, 9, 54, 216, 96, 110, 127, 54, 172, 190, 248, 151, 143, 234, 0, 142, 100, 0, 169, 117, 213, 26, 190, 107, 164, 146, 49, 120, 199, 207, 144, 200, 2]);
}

#[test]
fn fork_stb256() {
    let mut h = Streebog256::new();
    h.update(b"hello ");
    let mut g = h.clone();
    h.update(b"world");
    g.update(b"world");
    let a = h.finalize();
    let b = g.finalize();
    assert_eq!(a, b);
    assert_eq!(a, [198, 0, 253, 157, 208, 73, 207, 138, 189, 47, 91, 50, 232, 64, 210, 203, 14, 65, 234, 68, 222, 28, 21, 93, 205, 136, 220, 132, 254, 88, 168, 85]);
}

#[test]
fn fork_stb512() {
    let mut h = Streebog512::new();
    h.update(b"hello ");
    let mut g = h.clone();
    h.update(b"world");
    g.update(b"world");
    let a = h.finalize();
    let b = g.finalize();
    assert_eq!(a, b);
    assert_eq!(a, [132, 216, 131, 237, 233, 250, 108, 232, 85, 216, 45, 140, 39, 142, 205, 159, 95, 200, 139, 240, 96, 40, 49, 174, 12, 56, 185, 181, 6, 234, 60, 176, 47, 63, 160, 118, 184, 245, 102, 74, 223, 31, 248, 98, 192, 21, 125, 164, 204, 154, 131, 225, 65, 183, 56, 255, 146, 104, 169, 186, 62, 214, 245, 99]);
}

