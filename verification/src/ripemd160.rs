//! The RIPEMD-160 hash: five 32-bit state words, 64-byte blocks,
//! little-endian word order, dual parallel round pipelines merged at the
//! end of each block.

use vstd::prelude::*;
use crate::words::{wadd, rotl32, rotl32_spec, le32, le32_at, le32_bytes};
use crate::pad::{pad_md_le64, tail_pad_le64, md_bitlen64, md_pad_zeros, lemma_pad_md_le64_split};
use crate::ripemd::{rmd_f1, rmd_f2, rmd_f3, rmd_f4, rmd_f5, rmd_step1, rmd_step2, rmd_step3, rmd_step4, rmd_step5, rmd_bitlen};
use crate::buffer::BlockBuffer64;

verus! {

/// One application of the compression function to a 64-byte block: both
/// pipelines run over the same block, merged at the end.
#[verifier::opaque]
pub open spec fn rmd160_compress_spec(s: (u32, u32, u32, u32, u32), b: Seq<u8>) -> (u32, u32, u32, u32, u32)
    recommends
        b.len() == 64,
{
    let x0 = le32_at(b, 0);
    let x1 = le32_at(b, 1);
    let x2 = le32_at(b, 2);
    let x3 = le32_at(b, 3);
    let x4 = le32_at(b, 4);
    let x5 = le32_at(b, 5);
    let x6 = le32_at(b, 6);
    let x7 = le32_at(b, 7);
    let x8 = le32_at(b, 8);
    let x9 = le32_at(b, 9);
    let x10 = le32_at(b, 10);
    let x11 = le32_at(b, 11);
    let x12 = le32_at(b, 12);
    let x13 = le32_at(b, 13);
    let x14 = le32_at(b, 14);
    let x15 = le32_at(b, 15);
    let v0 = wadd(rotl32_spec(wadd(wadd(wadd(s.0, rmd_f1(s.1, s.2, s.3)), x0), 0x00000000u32), 11), s.4);
    let w0 = rotl32_spec(s.2, 10);
    let v1 = wadd(rotl32_spec(wadd(wadd(wadd(s.0, rmd_f5(s.1, s.2, s.3)), x5), 0x50a28be6u32), 8), s.4);
    let w1 = rotl32_spec(s.2, 10);
    let v2 = wadd(rotl32_spec(wadd(wadd(wadd(s.4, rmd_f1(v0, s.1, w0)), x1), 0x00000000u32), 14), s.3);
    let w2 = rotl32_spec(s.1, 10);
    let v3 = wadd(rotl32_spec(wadd(wadd(wadd(s.4, rmd_f5(v1, s.1, w1)), x14), 0x50a28be6u32), 9), s.3);
    let w3 = rotl32_spec(s.1, 10);
    let v4 = wadd(rotl32_spec(wadd(wadd(wadd(s.3, rmd_f1(v2, v0, w2)), x2), 0x00000000u32), 15), w0);
    let w4 = rotl32_spec(v0, 10);
    let v5 = wadd(rotl32_spec(wadd(wadd(wadd(s.3, rmd_f5(v3, v1, w3)), x7), 0x50a28be6u32), 9), w1);
    let w5 = rotl32_spec(v1, 10);
    let v6 = wadd(rotl32_spec(wadd(wadd(wadd(w0, rmd_f1(v4, v2, w4)), x3), 0x00000000u32), 12), w2);
    let w6 = rotl32_spec(v2, 10);
    let v7 = wadd(rotl32_spec(wadd(wadd(wadd(w1, rmd_f5(v5, v3, w5)), x0), 0x50a28be6u32), 11), w3);
    let w7 = rotl32_spec(v3, 10);
    let v8 = wadd(rotl32_spec(wadd(wadd(wadd(w2, rmd_f1(v6, v4, w6)), x4), 0x00000000u32), 5), w4);
    let w8 = rotl32_spec(v4, 10);
    let v9 = wadd(rotl32_spec(wadd(wadd(wadd(w3, rmd_f5(v7, v5, w7)), x9), 0x50a28be6u32), 13), w5);
    let w9 = rotl32_spec(v5, 10);
    let v10 = wadd(rotl32_spec(wadd(wadd(wadd(w4, rmd_f1(v8, v6, w8)), x5), 0x00000000u32), 8), w6);
    let w10 = rotl32_spec(v6, 10);
    let v11 = wadd(rotl32_spec(wadd(wadd(wadd(w5, rmd_f5(v9, v7, w9)), x2), 0x50a28be6u32), 15), w7);
    let w11 = rotl32_spec(v7, 10);
    let v12 = wadd(rotl32_spec(wadd(wadd(wadd(w6, rmd_f1(v10, v8, w10)), x6), 0x00000000u32), 7), w8);
    let w12 = rotl32_spec(v8, 10);
    let v13 = wadd(rotl32_spec(wadd(wadd(wadd(w7, rmd_f5(v11, v9, w11)), x11), 0x50a28be6u32), 15), w9);
    let w13 = rotl32_spec(v9, 10);
    let v14 = wadd(rotl32_spec(wadd(wadd(wadd(w8, rmd_f1(v12, v10, w12)), x7), 0x00000000u32), 9), w10);
    let w14 = rotl32_spec(v10, 10);
    let v15 = wadd(rotl32_spec(wadd(wadd(wadd(w9, rmd_f5(v13, v11, w13)), x4), 0x50a28be6u32), 5), w11);
    let w15 = rotl32_spec(v11, 10);
    let v16 = wadd(rotl32_spec(wadd(wadd(wadd(w10, rmd_f1(v14, v12, w14)), x8), 0x00000000u32), 11), w12);
    let w16 = rotl32_spec(v12, 10);
    let v17 = wadd(rotl32_spec(wadd(wadd(wadd(w11, rmd_f5(v15, v13, w15)), x13), 0x50a28be6u32), 7), w13);
    let w17 = rotl32_spec(v13, 10);
    let v18 = wadd(rotl32_spec(wadd(wadd(wadd(w12, rmd_f1(v16, v14, w16)), x9), 0x00000000u32), 13), w14);
    let w18 = rotl32_spec(v14, 10);
    let v19 = wadd(rotl32_spec(wadd(wadd(wadd(w13, rmd_f5(v17, v15, w17)), x6), 0x50a28be6u32), 7), w15);
    let w19 = rotl32_spec(v15, 10);
    let v20 = wadd(rotl32_spec(wadd(wadd(wadd(w14, rmd_f1(v18, v16, w18)), x10), 0x00000000u32), 14), w16);
    let w20 = rotl32_spec(v16, 10);
    let v21 = wadd(rotl32_spec(wadd(wadd(wadd(w15, rmd_f5(v19, v17, w19)), x15), 0x50a28be6u32), 8), w17);
    let w21 = rotl32_spec(v17, 10);
    let v22 = wadd(rotl32_spec(wadd(wadd(wadd(w16, rmd_f1(v20, v18, w20)), x11), 0x00000000u32), 15), w18);
    let w22 = rotl32_spec(v18, 10);
    let v23 = wadd(rotl32_spec(wadd(wadd(wadd(w17, rmd_f5(v21, v19, w21)), x8), 0x50a28be6u32), 11), w19);
    let w23 = rotl32_spec(v19, 10);
    let v24 = wadd(rotl32_spec(wadd(wadd(wadd(w18, rmd_f1(v22, v20, w22)), x12), 0x00000000u32), 6), w20);
    let w24 = rotl32_spec(v20, 10);
    let v25 = wadd(rotl32_spec(wadd(wadd(wadd(w19, rmd_f5(v23, v21, w23)), x1), 0x50a28be6u32), 14), w21);
    let w25 = rotl32_spec(v21, 10);
    let v26 = wadd(rotl32_spec(wadd(wadd(wadd(w20, rmd_f1(v24, v22, w24)), x13), 0x00000000u32), 7), w22);
    let w26 = rotl32_spec(v22, 10);
    let v27 = wadd(rotl32_spec(wadd(wadd(wadd(w21, rmd_f5(v25, v23, w25)), x10), 0x50a28be6u32), 14), w23);
    let w27 = rotl32_spec(v23, 10);
    let v28 = wadd(rotl32_spec(wadd(wadd(wadd(w22, rmd_f1(v26, v24, w26)), x14), 0x00000000u32), 9), w24);
    let w28 = rotl32_spec(v24, 10);
    let v29 = wadd(rotl32_spec(wadd(wadd(wadd(w23, rmd_f5(v27, v25, w27)), x3), 0x50a28be6u32), 12), w25);
    let w29 = rotl32_spec(v25, 10);
    let v30 = wadd(rotl32_spec(wadd(wadd(wadd(w24, rmd_f1(v28, v26, w28)), x15), 0x00000000u32), 8), w26);
    let w30 = rotl32_spec(v26, 10);
    let v31 = wadd(rotl32_spec(wadd(wadd(wadd(w25, rmd_f5(v29, v27, w29)), x12), 0x50a28be6u32), 6), w27);
    let w31 = rotl32_spec(v27, 10);
    let v32 = wadd(rotl32_spec(wadd(wadd(wadd(w26, rmd_f2(v30, v28, w30)), x7), 0x5a827999u32), 7), w28);
    let w32 = rotl32_spec(v28, 10);
    let v33 = wadd(rotl32_spec(wadd(wadd(wadd(w27, rmd_f4(v31, v29, w31)), x6), 0x5c4dd124u32), 9), w29);
    let w33 = rotl32_spec(v29, 10);
    let v34 = wadd(rotl32_spec(wadd(wadd(wadd(w28, rmd_f2(v32, v30, w32)), x4), 0x5a827999u32), 6), w30);
    let w34 = rotl32_spec(v30, 10);
    let v35 = wadd(rotl32_spec(wadd(wadd(wadd(w29, rmd_f4(v33, v31, w33)), x11), 0x5c4dd124u32), 13), w31);
    let w35 = rotl32_spec(v31, 10);
    let v36 = wadd(rotl32_spec(wadd(wadd(wadd(w30, rmd_f2(v34, v32, w34)), x13), 0x5a827999u32), 8), w32);
    let w36 = rotl32_spec(v32, 10);
    let v37 = wadd(rotl32_spec(wadd(wadd(wadd(w31, rmd_f4(v35, v33, w35)), x3), 0x5c4dd124u32), 15), w33);
    let w37 = rotl32_spec(v33, 10);
    let v38 = wadd(rotl32_spec(wadd(wadd(wadd(w32, rmd_f2(v36, v34, w36)), x1), 0x5a827999u32), 13), w34);
    let w38 = rotl32_spec(v34, 10);
    let v39 = wadd(rotl32_spec(wadd(wadd(wadd(w33, rmd_f4(v37, v35, w37)), x7), 0x5c4dd124u32), 7), w35);
    let w39 = rotl32_spec(v35, 10);
    let v40 = wadd(rotl32_spec(wadd(wadd(wadd(w34, rmd_f2(v38, v36, w38)), x10), 0x5a827999u32), 11), w36);
    let w40 = rotl32_spec(v36, 10);
    let v41 = wadd(rotl32_spec(wadd(wadd(wadd(w35, rmd_f4(v39, v37, w39)), x0), 0x5c4dd124u32), 12), w37);
    let w41 = rotl32_spec(v37, 10);
    let v42 = wadd(rotl32_spec(wadd(wadd(wadd(w36, rmd_f2(v40, v38, w40)), x6), 0x5a827999u32), 9), w38);
    let w42 = rotl32_spec(v38, 10);
    let v43 = wadd(rotl32_spec(wadd(wadd(wadd(w37, rmd_f4(v41, v39, w41)), x13), 0x5c4dd124u32), 8), w39);
    let w43 = rotl32_spec(v39, 10);
    let v44 = wadd(rotl32_spec(wadd(wadd(wadd(w38, rmd_f2(v42, v40, w42)), x15), 0x5a827999u32), 7), w40);
    let w44 = rotl32_spec(v40, 10);
    let v45 = wadd(rotl32_spec(wadd(wadd(wadd(w39, rmd_f4(v43, v41, w43)), x5), 0x5c4dd124u32), 9), w41);
    let w45 = rotl32_spec(v41, 10);
    let v46 = wadd(rotl32_spec(wadd(wadd(wadd(w40, rmd_f2(v44, v42, w44)), x3), 0x5a827999u32), 15), w42);
    let w46 = rotl32_spec(v42, 10);
    let v47 = wadd(rotl32_spec(wadd(wadd(wadd(w41, rmd_f4(v45, v43, w45)), x10), 0x5c4dd124u32), 11), w43);
    let w47 = rotl32_spec(v43, 10);
    let v48 = wadd(rotl32_spec(wadd(wadd(wadd(w42, rmd_f2(v46, v44, w46)), x12), 0x5a827999u32), 7), w44);
    let w48 = rotl32_spec(v44, 10);
    let v49 = wadd(rotl32_spec(wadd(wadd(wadd(w43, rmd_f4(v47, v45, w47)), x14), 0x5c4dd124u32), 7), w45);
    let w49 = rotl32_spec(v45, 10);
    let v50 = wadd(rotl32_spec(wadd(wadd(wadd(w44, rmd_f2(v48, v46, w48)), x0), 0x5a827999u32), 12), w46);
    let w50 = rotl32_spec(v46, 10);
    let v51 = wadd(rotl32_spec(wadd(wadd(wadd(w45, rmd_f4(v49, v47, w49)), x15), 0x5c4dd124u32), 7), w47);
    let w51 = rotl32_spec(v47, 10);
    let v52 = wadd(rotl32_spec(wadd(wadd(wadd(w46, rmd_f2(v50, v48, w50)), x9), 0x5a827999u32), 15), w48);
    let w52 = rotl32_spec(v48, 10);
    let v53 = wadd(rotl32_spec(wadd(wadd(wadd(w47, rmd_f4(v51, v49, w51)), x8), 0x5c4dd124u32), 12), w49);
    let w53 = rotl32_spec(v49, 10);
    let v54 = wadd(rotl32_spec(wadd(wadd(wadd(w48, rmd_f2(v52, v50, w52)), x5), 0x5a827999u32), 9), w50);
    let w54 = rotl32_spec(v50, 10);
    let v55 = wadd(rotl32_spec(wadd(wadd(wadd(w49, rmd_f4(v53, v51, w53)), x12), 0x5c4dd124u32), 7), w51);
    let w55 = rotl32_spec(v51, 10);
    let v56 = wadd(rotl32_spec(wadd(wadd(wadd(w50, rmd_f2(v54, v52, w54)), x2), 0x5a827999u32), 11), w52);
    let w56 = rotl32_spec(v52, 10);
    let v57 = wadd(rotl32_spec(wadd(wadd(wadd(w51, rmd_f4(v55, v53, w55)), x4), 0x5c4dd124u32), 6), w53);
    let w57 = rotl32_spec(v53, 10);
    let v58 = wadd(rotl32_spec(wadd(wadd(wadd(w52, rmd_f2(v56, v54, w56)), x14), 0x5a827999u32), 7), w54);
    let w58 = rotl32_spec(v54, 10);
    let v59 = wadd(rotl32_spec(wadd(wadd(wadd(w53, rmd_f4(v57, v55, w57)), x9), 0x5c4dd124u32), 15), w55);
    let w59 = rotl32_spec(v55, 10);
    let v60 = wadd(rotl32_spec(wadd(wadd(wadd(w54, rmd_f2(v58, v56, w58)), x11), 0x5a827999u32), 13), w56);
    let w60 = rotl32_spec(v56, 10);
    let v61 = wadd(rotl32_spec(wadd(wadd(wadd(w55, rmd_f4(v59, v57, w59)), x1), 0x5c4dd124u32), 13), w57);
    let w61 = rotl32_spec(v57, 10);
    let v62 = wadd(rotl32_spec(wadd(wadd(wadd(w56, rmd_f2(v60, v58, w60)), x8), 0x5a827999u32), 12), w58);
    let w62 = rotl32_spec(v58, 10);
    let v63 = wadd(rotl32_spec(wadd(wadd(wadd(w57, rmd_f4(v61, v59, w61)), x2), 0x5c4dd124u32), 11), w59);
    let w63 = rotl32_spec(v59, 10);
    let v64 = wadd(rotl32_spec(wadd(wadd(wadd(w58, rmd_f3(v62, v60, w62)), x3), 0x6ed9eba1u32), 11), w60);
    let w64 = rotl32_spec(v60, 10);
    let v65 = wadd(rotl32_spec(wadd(wadd(wadd(w59, rmd_f3(v63, v61, w63)), x15), 0x6d703ef3u32), 9), w61);
    let w65 = rotl32_spec(v61, 10);
    let v66 = wadd(rotl32_spec(wadd(wadd(wadd(w60, rmd_f3(v64, v62, w64)), x10), 0x6ed9eba1u32), 13), w62);
    let w66 = rotl32_spec(v62, 10);
    let v67 = wadd(rotl32_spec(wadd(wadd(wadd(w61, rmd_f3(v65, v63, w65)), x5), 0x6d703ef3u32), 7), w63);
    let w67 = rotl32_spec(v63, 10);
    let v68 = wadd(rotl32_spec(wadd(wadd(wadd(w62, rmd_f3(v66, v64, w66)), x14), 0x6ed9eba1u32), 6), w64);
    let w68 = rotl32_spec(v64, 10);
    let v69 = wadd(rotl32_spec(wadd(wadd(wadd(w63, rmd_f3(v67, v65, w67)), x1), 0x6d703ef3u32), 15), w65);
    let w69 = rotl32_spec(v65, 10);
    let v70 = wadd(rotl32_spec(wadd(wadd(wadd(w64, rmd_f3(v68, v66, w68)), x4), 0x6ed9eba1u32), 7), w66);
    let w70 = rotl32_spec(v66, 10);
    let v71 = wadd(rotl32_spec(wadd(wadd(wadd(w65, rmd_f3(v69, v67, w69)), x3), 0x6d703ef3u32), 11), w67);
    let w71 = rotl32_spec(v67, 10);
    let v72 = wadd(rotl32_spec(wadd(wadd(wadd(w66, rmd_f3(v70, v68, w70)), x9), 0x6ed9eba1u32), 14), w68);
    let w72 = rotl32_spec(v68, 10);
    let v73 = wadd(rotl32_spec(wadd(wadd(wadd(w67, rmd_f3(v71, v69, w71)), x7), 0x6d703ef3u32), 8), w69);
    let w73 = rotl32_spec(v69, 10);
    let v74 = wadd(rotl32_spec(wadd(wadd(wadd(w68, rmd_f3(v72, v70, w72)), x15), 0x6ed9eba1u32), 9), w70);
    let w74 = rotl32_spec(v70, 10);
    let v75 = wadd(rotl32_spec(wadd(wadd(wadd(w69, rmd_f3(v73, v71, w73)), x14), 0x6d703ef3u32), 6), w71);
    let w75 = rotl32_spec(v71, 10);
    let v76 = wadd(rotl32_spec(wadd(wadd(wadd(w70, rmd_f3(v74, v72, w74)), x8), 0x6ed9eba1u32), 13), w72);
    let w76 = rotl32_spec(v72, 10);
    let v77 = wadd(rotl32_spec(wadd(wadd(wadd(w71, rmd_f3(v75, v73, w75)), x6), 0x6d703ef3u32), 6), w73);
    let w77 = rotl32_spec(v73, 10);
    let v78 = wadd(rotl32_spec(wadd(wadd(wadd(w72, rmd_f3(v76, v74, w76)), x1), 0x6ed9eba1u32), 15), w74);
    let w78 = rotl32_spec(v74, 10);
    let v79 = wadd(rotl32_spec(wadd(wadd(wadd(w73, rmd_f3(v77, v75, w77)), x9), 0x6d703ef3u32), 14), w75);
    let w79 = rotl32_spec(v75, 10);
    let v80 = wadd(rotl32_spec(wadd(wadd(wadd(w74, rmd_f3(v78, v76, w78)), x2), 0x6ed9eba1u32), 14), w76);
    let w80 = rotl32_spec(v76, 10);
    let v81 = wadd(rotl32_spec(wadd(wadd(wadd(w75, rmd_f3(v79, v77, w79)), x11), 0x6d703ef3u32), 12), w77);
    let w81 = rotl32_spec(v77, 10);
    let v82 = wadd(rotl32_spec(wadd(wadd(wadd(w76, rmd_f3(v80, v78, w80)), x7), 0x6ed9eba1u32), 8), w78);
    let w82 = rotl32_spec(v78, 10);
    let v83 = wadd(rotl32_spec(wadd(wadd(wadd(w77, rmd_f3(v81, v79, w81)), x8), 0x6d703ef3u32), 13), w79);
    let w83 = rotl32_spec(v79, 10);
    let v84 = wadd(rotl32_spec(wadd(wadd(wadd(w78, rmd_f3(v82, v80, w82)), x0), 0x6ed9eba1u32), 13), w80);
    let w84 = rotl32_spec(v80, 10);
    let v85 = wadd(rotl32_spec(wadd(wadd(wadd(w79, rmd_f3(v83, v81, w83)), x12), 0x6d703ef3u32), 5), w81);
    let w85 = rotl32_spec(v81, 10);
    let v86 = wadd(rotl32_spec(wadd(wadd(wadd(w80, rmd_f3(v84, v82, w84)), x6), 0x6ed9eba1u32), 6), w82);
    let w86 = rotl32_spec(v82, 10);
    let v87 = wadd(rotl32_spec(wadd(wadd(wadd(w81, rmd_f3(v85, v83, w85)), x2), 0x6d703ef3u32), 14), w83);
    let w87 = rotl32_spec(v83, 10);
    let v88 = wadd(rotl32_spec(wadd(wadd(wadd(w82, rmd_f3(v86, v84, w86)), x13), 0x6ed9eba1u32), 5), w84);
    let w88 = rotl32_spec(v84, 10);
    let v89 = wadd(rotl32_spec(wadd(wadd(wadd(w83, rmd_f3(v87, v85, w87)), x10), 0x6d703ef3u32), 13), w85);
    let w89 = rotl32_spec(v85, 10);
    let v90 = wadd(rotl32_spec(wadd(wadd(wadd(w84, rmd_f3(v88, v86, w88)), x11), 0x6ed9eba1u32), 12), w86);
    let w90 = rotl32_spec(v86, 10);
    let v91 = wadd(rotl32_spec(wadd(wadd(wadd(w85, rmd_f3(v89, v87, w89)), x0), 0x6d703ef3u32), 13), w87);
    let w91 = rotl32_spec(v87, 10);
    let v92 = wadd(rotl32_spec(wadd(wadd(wadd(w86, rmd_f3(v90, v88, w90)), x5), 0x6ed9eba1u32), 7), w88);
    let w92 = rotl32_spec(v88, 10);
    let v93 = wadd(rotl32_spec(wadd(wadd(wadd(w87, rmd_f3(v91, v89, w91)), x4), 0x6d703ef3u32), 7), w89);
    let w93 = rotl32_spec(v89, 10);
    let v94 = wadd(rotl32_spec(wadd(wadd(wadd(w88, rmd_f3(v92, v90, w92)), x12), 0x6ed9eba1u32), 5), w90);
    let w94 = rotl32_spec(v90, 10);
    let v95 = wadd(rotl32_spec(wadd(wadd(wadd(w89, rmd_f3(v93, v91, w93)), x13), 0x6d703ef3u32), 5), w91);
    let w95 = rotl32_spec(v91, 10);
    let v96 = wadd(rotl32_spec(wadd(wadd(wadd(w90, rmd_f4(v94, v92, w94)), x1), 0x8f1bbcdcu32), 11), w92);
    let w96 = rotl32_spec(v92, 10);
    let v97 = wadd(rotl32_spec(wadd(wadd(wadd(w91, rmd_f2(v95, v93, w95)), x8), 0x7a6d76e9u32), 15), w93);
    let w97 = rotl32_spec(v93, 10);
    let v98 = wadd(rotl32_spec(wadd(wadd(wadd(w92, rmd_f4(v96, v94, w96)), x9), 0x8f1bbcdcu32), 12), w94);
    let w98 = rotl32_spec(v94, 10);
    let v99 = wadd(rotl32_spec(wadd(wadd(wadd(w93, rmd_f2(v97, v95, w97)), x6), 0x7a6d76e9u32), 5), w95);
    let w99 = rotl32_spec(v95, 10);
    let v100 = wadd(rotl32_spec(wadd(wadd(wadd(w94, rmd_f4(v98, v96, w98)), x11), 0x8f1bbcdcu32), 14), w96);
    let w100 = rotl32_spec(v96, 10);
    let v101 = wadd(rotl32_spec(wadd(wadd(wadd(w95, rmd_f2(v99, v97, w99)), x4), 0x7a6d76e9u32), 8), w97);
    let w101 = rotl32_spec(v97, 10);
    let v102 = wadd(rotl32_spec(wadd(wadd(wadd(w96, rmd_f4(v100, v98, w100)), x10), 0x8f1bbcdcu32), 15), w98);
    let w102 = rotl32_spec(v98, 10);
    let v103 = wadd(rotl32_spec(wadd(wadd(wadd(w97, rmd_f2(v101, v99, w101)), x1), 0x7a6d76e9u32), 11), w99);
    let w103 = rotl32_spec(v99, 10);
    let v104 = wadd(rotl32_spec(wadd(wadd(wadd(w98, rmd_f4(v102, v100, w102)), x0), 0x8f1bbcdcu32), 14), w100);
    let w104 = rotl32_spec(v100, 10);
    let v105 = wadd(rotl32_spec(wadd(wadd(wadd(w99, rmd_f2(v103, v101, w103)), x3), 0x7a6d76e9u32), 14), w101);
    let w105 = rotl32_spec(v101, 10);
    let v106 = wadd(rotl32_spec(wadd(wadd(wadd(w100, rmd_f4(v104, v102, w104)), x8), 0x8f1bbcdcu32), 15), w102);
    let w106 = rotl32_spec(v102, 10);
    let v107 = wadd(rotl32_spec(wadd(wadd(wadd(w101, rmd_f2(v105, v103, w105)), x11), 0x7a6d76e9u32), 14), w103);
    let w107 = rotl32_spec(v103, 10);
    let v108 = wadd(rotl32_spec(wadd(wadd(wadd(w102, rmd_f4(v106, v104, w106)), x12), 0x8f1bbcdcu32), 9), w104);
    let w108 = rotl32_spec(v104, 10);
    let v109 = wadd(rotl32_spec(wadd(wadd(wadd(w103, rmd_f2(v107, v105, w107)), x15), 0x7a6d76e9u32), 6), w105);
    let w109 = rotl32_spec(v105, 10);
    let v110 = wadd(rotl32_spec(wadd(wadd(wadd(w104, rmd_f4(v108, v106, w108)), x4), 0x8f1bbcdcu32), 8), w106);
    let w110 = rotl32_spec(v106, 10);
    let v111 = wadd(rotl32_spec(wadd(wadd(wadd(w105, rmd_f2(v109, v107, w109)), x0), 0x7a6d76e9u32), 14), w107);
    let w111 = rotl32_spec(v107, 10);
    let v112 = wadd(rotl32_spec(wadd(wadd(wadd(w106, rmd_f4(v110, v108, w110)), x13), 0x8f1bbcdcu32), 9), w108);
    let w112 = rotl32_spec(v108, 10);
    let v113 = wadd(rotl32_spec(wadd(wadd(wadd(w107, rmd_f2(v111, v109, w111)), x5), 0x7a6d76e9u32), 6), w109);
    let w113 = rotl32_spec(v109, 10);
    let v114 = wadd(rotl32_spec(wadd(wadd(wadd(w108, rmd_f4(v112, v110, w112)), x3), 0x8f1bbcdcu32), 14), w110);
    let w114 = rotl32_spec(v110, 10);
    let v115 = wadd(rotl32_spec(wadd(wadd(wadd(w109, rmd_f2(v113, v111, w113)), x12), 0x7a6d76e9u32), 9), w111);
    let w115 = rotl32_spec(v111, 10);
    let v116 = wadd(rotl32_spec(wadd(wadd(wadd(w110, rmd_f4(v114, v112, w114)), x7), 0x8f1bbcdcu32), 5), w112);
    let w116 = rotl32_spec(v112, 10);
    let v117 = wadd(rotl32_spec(wadd(wadd(wadd(w111, rmd_f2(v115, v113, w115)), x2), 0x7a6d76e9u32), 12), w113);
    let w117 = rotl32_spec(v113, 10);
    let v118 = wadd(rotl32_spec(wadd(wadd(wadd(w112, rmd_f4(v116, v114, w116)), x15), 0x8f1bbcdcu32), 6), w114);
    let w118 = rotl32_spec(v114, 10);
    let v119 = wadd(rotl32_spec(wadd(wadd(wadd(w113, rmd_f2(v117, v115, w117)), x13), 0x7a6d76e9u32), 9), w115);
    let w119 = rotl32_spec(v115, 10);
    let v120 = wadd(rotl32_spec(wadd(wadd(wadd(w114, rmd_f4(v118, v116, w118)), x14), 0x8f1bbcdcu32), 8), w116);
    let w120 = rotl32_spec(v116, 10);
    let v121 = wadd(rotl32_spec(wadd(wadd(wadd(w115, rmd_f2(v119, v117, w119)), x9), 0x7a6d76e9u32), 12), w117);
    let w121 = rotl32_spec(v117, 10);
    let v122 = wadd(rotl32_spec(wadd(wadd(wadd(w116, rmd_f4(v120, v118, w120)), x5), 0x8f1bbcdcu32), 6), w118);
    let w122 = rotl32_spec(v118, 10);
    let v123 = wadd(rotl32_spec(wadd(wadd(wadd(w117, rmd_f2(v121, v119, w121)), x7), 0x7a6d76e9u32), 5), w119);
    let w123 = rotl32_spec(v119, 10);
    let v124 = wadd(rotl32_spec(wadd(wadd(wadd(w118, rmd_f4(v122, v120, w122)), x6), 0x8f1bbcdcu32), 5), w120);
    let w124 = rotl32_spec(v120, 10);
    let v125 = wadd(rotl32_spec(wadd(wadd(wadd(w119, rmd_f2(v123, v121, w123)), x10), 0x7a6d76e9u32), 15), w121);
    let w125 = rotl32_spec(v121, 10);
    let v126 = wadd(rotl32_spec(wadd(wadd(wadd(w120, rmd_f4(v124, v122, w124)), x2), 0x8f1bbcdcu32), 12), w122);
    let w126 = rotl32_spec(v122, 10);
    let v127 = wadd(rotl32_spec(wadd(wadd(wadd(w121, rmd_f2(v125, v123, w125)), x14), 0x7a6d76e9u32), 8), w123);
    let w127 = rotl32_spec(v123, 10);
    let v128 = wadd(rotl32_spec(wadd(wadd(wadd(w122, rmd_f5(v126, v124, w126)), x4), 0xa953fd4eu32), 9), w124);
    let w128 = rotl32_spec(v124, 10);
    let v129 = wadd(rotl32_spec(wadd(wadd(wadd(w123, rmd_f1(v127, v125, w127)), x12), 0x00000000u32), 8), w125);
    let w129 = rotl32_spec(v125, 10);
    let v130 = wadd(rotl32_spec(wadd(wadd(wadd(w124, rmd_f5(v128, v126, w128)), x0), 0xa953fd4eu32), 15), w126);
    let w130 = rotl32_spec(v126, 10);
    let v131 = wadd(rotl32_spec(wadd(wadd(wadd(w125, rmd_f1(v129, v127, w129)), x15), 0x00000000u32), 5), w127);
    let w131 = rotl32_spec(v127, 10);
    let v132 = wadd(rotl32_spec(wadd(wadd(wadd(w126, rmd_f5(v130, v128, w130)), x5), 0xa953fd4eu32), 5), w128);
    let w132 = rotl32_spec(v128, 10);
    let v133 = wadd(rotl32_spec(wadd(wadd(wadd(w127, rmd_f1(v131, v129, w131)), x10), 0x00000000u32), 12), w129);
    let w133 = rotl32_spec(v129, 10);
    let v134 = wadd(rotl32_spec(wadd(wadd(wadd(w128, rmd_f5(v132, v130, w132)), x9), 0xa953fd4eu32), 11), w130);
    let w134 = rotl32_spec(v130, 10);
    let v135 = wadd(rotl32_spec(wadd(wadd(wadd(w129, rmd_f1(v133, v131, w133)), x4), 0x00000000u32), 9), w131);
    let w135 = rotl32_spec(v131, 10);
    let v136 = wadd(rotl32_spec(wadd(wadd(wadd(w130, rmd_f5(v134, v132, w134)), x7), 0xa953fd4eu32), 6), w132);
    let w136 = rotl32_spec(v132, 10);
    let v137 = wadd(rotl32_spec(wadd(wadd(wadd(w131, rmd_f1(v135, v133, w135)), x1), 0x00000000u32), 12), w133);
    let w137 = rotl32_spec(v133, 10);
    let v138 = wadd(rotl32_spec(wadd(wadd(wadd(w132, rmd_f5(v136, v134, w136)), x12), 0xa953fd4eu32), 8), w134);
    let w138 = rotl32_spec(v134, 10);
    let v139 = wadd(rotl32_spec(wadd(wadd(wadd(w133, rmd_f1(v137, v135, w137)), x5), 0x00000000u32), 5), w135);
    let w139 = rotl32_spec(v135, 10);
    let v140 = wadd(rotl32_spec(wadd(wadd(wadd(w134, rmd_f5(v138, v136, w138)), x2), 0xa953fd4eu32), 13), w136);
    let w140 = rotl32_spec(v136, 10);
    let v141 = wadd(rotl32_spec(wadd(wadd(wadd(w135, rmd_f1(v139, v137, w139)), x8), 0x00000000u32), 14), w137);
    let w141 = rotl32_spec(v137, 10);
    let v142 = wadd(rotl32_spec(wadd(wadd(wadd(w136, rmd_f5(v140, v138, w140)), x10), 0xa953fd4eu32), 12), w138);
    let w142 = rotl32_spec(v138, 10);
    let v143 = wadd(rotl32_spec(wadd(wadd(wadd(w137, rmd_f1(v141, v139, w141)), x7), 0x00000000u32), 6), w139);
    let w143 = rotl32_spec(v139, 10);
    let v144 = wadd(rotl32_spec(wadd(wadd(wadd(w138, rmd_f5(v142, v140, w142)), x14), 0xa953fd4eu32), 5), w140);
    let w144 = rotl32_spec(v140, 10);
    let v145 = wadd(rotl32_spec(wadd(wadd(wadd(w139, rmd_f1(v143, v141, w143)), x6), 0x00000000u32), 8), w141);
    let w145 = rotl32_spec(v141, 10);
    let v146 = wadd(rotl32_spec(wadd(wadd(wadd(w140, rmd_f5(v144, v142, w144)), x1), 0xa953fd4eu32), 12), w142);
    let w146 = rotl32_spec(v142, 10);
    let v147 = wadd(rotl32_spec(wadd(wadd(wadd(w141, rmd_f1(v145, v143, w145)), x2), 0x00000000u32), 13), w143);
    let w147 = rotl32_spec(v143, 10);
    let v148 = wadd(rotl32_spec(wadd(wadd(wadd(w142, rmd_f5(v146, v144, w146)), x3), 0xa953fd4eu32), 13), w144);
    let w148 = rotl32_spec(v144, 10);
    let v149 = wadd(rotl32_spec(wadd(wadd(wadd(w143, rmd_f1(v147, v145, w147)), x13), 0x00000000u32), 6), w145);
    let w149 = rotl32_spec(v145, 10);
    let v150 = wadd(rotl32_spec(wadd(wadd(wadd(w144, rmd_f5(v148, v146, w148)), x8), 0xa953fd4eu32), 14), w146);
    let w150 = rotl32_spec(v146, 10);
    let v151 = wadd(rotl32_spec(wadd(wadd(wadd(w145, rmd_f1(v149, v147, w149)), x14), 0x00000000u32), 5), w147);
    let w151 = rotl32_spec(v147, 10);
    let v152 = wadd(rotl32_spec(wadd(wadd(wadd(w146, rmd_f5(v150, v148, w150)), x11), 0xa953fd4eu32), 11), w148);
    let w152 = rotl32_spec(v148, 10);
    let v153 = wadd(rotl32_spec(wadd(wadd(wadd(w147, rmd_f1(v151, v149, w151)), x0), 0x00000000u32), 15), w149);
    let w153 = rotl32_spec(v149, 10);
    let v154 = wadd(rotl32_spec(wadd(wadd(wadd(w148, rmd_f5(v152, v150, w152)), x6), 0xa953fd4eu32), 8), w150);
    let w154 = rotl32_spec(v150, 10);
    let v155 = wadd(rotl32_spec(wadd(wadd(wadd(w149, rmd_f1(v153, v151, w153)), x3), 0x00000000u32), 13), w151);
    let w155 = rotl32_spec(v151, 10);
    let v156 = wadd(rotl32_spec(wadd(wadd(wadd(w150, rmd_f5(v154, v152, w154)), x15), 0xa953fd4eu32), 5), w152);
    let w156 = rotl32_spec(v152, 10);
    let v157 = wadd(rotl32_spec(wadd(wadd(wadd(w151, rmd_f1(v155, v153, w155)), x9), 0x00000000u32), 11), w153);
    let w157 = rotl32_spec(v153, 10);
    let v158 = wadd(rotl32_spec(wadd(wadd(wadd(w152, rmd_f5(v156, v154, w156)), x13), 0xa953fd4eu32), 6), w154);
    let w158 = rotl32_spec(v154, 10);
    let v159 = wadd(rotl32_spec(wadd(wadd(wadd(w153, rmd_f1(v157, v155, w157)), x11), 0x00000000u32), 11), w155);
    let w159 = rotl32_spec(v155, 10);
    (wadd(wadd(s.1, v156), w159), wadd(wadd(s.2, w158), w157), wadd(wadd(s.3, w156), w155), wadd(wadd(s.4, w154), v159), wadd(wadd(s.0, v158), v157))
}

/// The compression function: folds one 64-byte block into the state.
#[verifier::rlimit(100)]
pub fn rmd160_compress(state: &mut (u32, u32, u32, u32, u32), block: &[u8; 64])
    ensures
        *final(state) == rmd160_compress_spec(*old(state), block@),
{
    proof {
        reveal(rmd160_compress_spec);
    }
    let x0 = le32(block[0], block[1], block[2], block[3]);
    let x1 = le32(block[4], block[5], block[6], block[7]);
    let x2 = le32(block[8], block[9], block[10], block[11]);
    let x3 = le32(block[12], block[13], block[14], block[15]);
    let x4 = le32(block[16], block[17], block[18], block[19]);
    let x5 = le32(block[20], block[21], block[22], block[23]);
    let x6 = le32(block[24], block[25], block[26], block[27]);
    let x7 = le32(block[28], block[29], block[30], block[31]);
    let x8 = le32(block[32], block[33], block[34], block[35]);
    let x9 = le32(block[36], block[37], block[38], block[39]);
    let x10 = le32(block[40], block[41], block[42], block[43]);
    let x11 = le32(block[44], block[45], block[46], block[47]);
    let x12 = le32(block[48], block[49], block[50], block[51]);
    let x13 = le32(block[52], block[53], block[54], block[55]);
    let x14 = le32(block[56], block[57], block[58], block[59]);
    let x15 = le32(block[60], block[61], block[62], block[63]);
    let mut al = state.0;
    let mut bl = state.1;
    let mut cl = state.2;
    let mut dl = state.3;
    let mut el = state.4;
    let mut ar = state.0;
    let mut br = state.1;
    let mut cr = state.2;
    let mut dr = state.3;
    let mut er = state.4;
    let t = rmd_step1(al, bl, cl, dl, el, x0, 0x00000000u32, 11);
    let u = rotl32(cl, 10);
    al = el; el = dl; dl = u; cl = bl; bl = t;
    let t = rmd_step5(ar, br, cr, dr, er, x5, 0x50a28be6u32, 8);
    let u = rotl32(cr, 10);
    ar = er; er = dr; dr = u; cr = br; br = t;
    let t = rmd_step1(al, bl, cl, dl, el, x1, 0x00000000u32, 14);
    let u = rotl32(cl, 10);
    al = el; el = dl; dl = u; cl = bl; bl = t;
    let t = rmd_step5(ar, br, cr, dr, er, x14, 0x50a28be6u32, 9);
    let u = rotl32(cr, 10);
    ar = er; er = dr; dr = u; cr = br; br = t;
    let t = rmd_step1(al, bl, cl, dl, el, x2, 0x00000000u32, 15);
    let u = rotl32(cl, 10);
    al = el; el = dl; dl = u; cl = bl; bl = t;
    let t = rmd_step5(ar, br, cr, dr, er, x7, 0x50a28be6u32, 9);
    let u = rotl32(cr, 10);
    ar = er; er = dr; dr = u; cr = br; br = t;
    let t = rmd_step1(al, bl, cl, dl, el, x3, 0x00000000u32, 12);
    let u = rotl32(cl, 10);
    al = el; el = dl; dl = u; cl = bl; bl = t;
    let t = rmd_step5(ar, br, cr, dr, er, x0, 0x50a28be6u32, 11);
    let u = rotl32(cr, 10);
    ar = er; er = dr; dr = u; cr = br; br = t;
    let t = rmd_step1(al, bl, cl, dl, el, x4, 0x00000000u32, 5);
    let u = rotl32(cl, 10);
    al = el; el = dl; dl = u; cl = bl; bl = t;
    let t = rmd_step5(ar, br, cr, dr, er, x9, 0x50a28be6u32, 13);
    let u = rotl32(cr, 10);
    ar = er; er = dr; dr = u; cr = br; br = t;
    let t = rmd_step1(al, bl, cl, dl, el, x5, 0x00000000u32, 8);
    let u = rotl32(cl, 10);
    al = el; el = dl; dl = u; cl = bl; bl = t;
    let t = rmd_step5(ar, br, cr, dr, er, x2, 0x50a28be6u32, 15);
    let u = rotl32(cr, 10);
    ar = er; er = dr; dr = u; cr = br; br = t;
    let t = rmd_step1(al, bl, cl, dl, el, x6, 0x00000000u32, 7);
    let u = rotl32(cl, 10);
    al = el; el = dl; dl = u; cl = bl; bl = t;
    let t = rmd_step5(ar, br, cr, dr, er, x11, 0x50a28be6u32, 15);
    let u = rotl32(cr, 10);
    ar = er; er = dr; dr = u; cr = br; br = t;
    let t = rmd_step1(al, bl, cl, dl, el, x7, 0x00000000u32, 9);
    let u = rotl32(cl, 10);
    al = el; el = dl; dl = u; cl = bl; bl = t;
    let t = rmd_step5(ar, br, cr, dr, er, x4, 0x50a28be6u32, 5);
    let u = rotl32(cr, 10);
    ar = er; er = dr; dr = u; cr = br; br = t;
    let t = rmd_step1(al, bl, cl, dl, el, x8, 0x00000000u32, 11);
    let u = rotl32(cl, 10);
    al = el; el = dl; dl = u; cl = bl; bl = t;
    let t = rmd_step5(ar, br, cr, dr, er, x13, 0x50a28be6u32, 7);
    let u = rotl32(cr, 10);
    ar = er; er = dr; dr = u; cr = br; br = t;
    let t = rmd_step1(al, bl, cl, dl, el, x9, 0x00000000u32, 13);
    let u = rotl32(cl, 10);
    al = el; el = dl; dl = u; cl = bl; bl = t;
    let t = rmd_step5(ar, br, cr, dr, er, x6, 0x50a28be6u32, 7);
    let u = rotl32(cr, 10);
    ar = er; er = dr; dr = u; cr = br; br = t;
    let t = rmd_step1(al, bl, cl, dl, el, x10, 0x00000000u32, 14);
    let u = rotl32(cl, 10);
    al = el; el = dl; dl = u; cl = bl; bl = t;
    let t = rmd_step5(ar, br, cr, dr, er, x15, 0x50a28be6u32, 8);
    let u = rotl32(cr, 10);
    ar = er; er = dr; dr = u; cr = br; br = t;
    let t = rmd_step1(al, bl, cl, dl, el, x11, 0x00000000u32, 15);
    let u = rotl32(cl, 10);
    al = el; el = dl; dl = u; cl = bl; bl = t;
    let t = rmd_step5(ar, br, cr, dr, er, x8, 0x50a28be6u32, 11);
    let u = rotl32(cr, 10);
    ar = er; er = dr; dr = u; cr = br; br = t;
    let t = rmd_step1(al, bl, cl, dl, el, x12, 0x00000000u32, 6);
    let u = rotl32(cl, 10);
    al = el; el = dl; dl = u; cl = bl; bl = t;
    let t = rmd_step5(ar, br, cr, dr, er, x1, 0x50a28be6u32, 14);
    let u = rotl32(cr, 10);
    ar = er; er = dr; dr = u; cr = br; br = t;
    let t = rmd_step1(al, bl, cl, dl, el, x13, 0x00000000u32, 7);
    let u = rotl32(cl, 10);
    al = el; el = dl; dl = u; cl = bl; bl = t;
    let t = rmd_step5(ar, br, cr, dr, er, x10, 0x50a28be6u32, 14);
    let u = rotl32(cr, 10);
    ar = er; er = dr; dr = u; cr = br; br = t;
    let t = rmd_step1(al, bl, cl, dl, el, x14, 0x00000000u32, 9);
    let u = rotl32(cl, 10);
    al = el; el = dl; dl = u; cl = bl; bl = t;
    let t = rmd_step5(ar, br, cr, dr, er, x3, 0x50a28be6u32, 12);
    let u = rotl32(cr, 10);
    ar = er; er = dr; dr = u; cr = br; br = t;
    let t = rmd_step1(al, bl, cl, dl, el, x15, 0x00000000u32, 8);
    let u = rotl32(cl, 10);
    al = el; el = dl; dl = u; cl = bl; bl = t;
    let t = rmd_step5(ar, br, cr, dr, er, x12, 0x50a28be6u32, 6);
    let u = rotl32(cr, 10);
    ar = er; er = dr; dr = u; cr = br; br = t;
    let t = rmd_step2(al, bl, cl, dl, el, x7, 0x5a827999u32, 7);
    let u = rotl32(cl, 10);
    al = el; el = dl; dl = u; cl = bl; bl = t;
    let t = rmd_step4(ar, br, cr, dr, er, x6, 0x5c4dd124u32, 9);
    let u = rotl32(cr, 10);
    ar = er; er = dr; dr = u; cr = br; br = t;
    let t = rmd_step2(al, bl, cl, dl, el, x4, 0x5a827999u32, 6);
    let u = rotl32(cl, 10);
    al = el; el = dl; dl = u; cl = bl; bl = t;
    let t = rmd_step4(ar, br, cr, dr, er, x11, 0x5c4dd124u32, 13);
    let u = rotl32(cr, 10);
    ar = er; er = dr; dr = u; cr = br; br = t;
    let t = rmd_step2(al, bl, cl, dl, el, x13, 0x5a827999u32, 8);
    let u = rotl32(cl, 10);
    al = el; el = dl; dl = u; cl = bl; bl = t;
    let t = rmd_step4(ar, br, cr, dr, er, x3, 0x5c4dd124u32, 15);
    let u = rotl32(cr, 10);
    ar = er; er = dr; dr = u; cr = br; br = t;
    let t = rmd_step2(al, bl, cl, dl, el, x1, 0x5a827999u32, 13);
    let u = rotl32(cl, 10);
    al = el; el = dl; dl = u; cl = bl; bl = t;
    let t = rmd_step4(ar, br, cr, dr, er, x7, 0x5c4dd124u32, 7);
    let u = rotl32(cr, 10);
    ar = er; er = dr; dr = u; cr = br; br = t;
    let t = rmd_step2(al, bl, cl, dl, el, x10, 0x5a827999u32, 11);
    let u = rotl32(cl, 10);
    al = el; el = dl; dl = u; cl = bl; bl = t;
    let t = rmd_step4(ar, br, cr, dr, er, x0, 0x5c4dd124u32, 12);
    let u = rotl32(cr, 10);
    ar = er; er = dr; dr = u; cr = br; br = t;
    let t = rmd_step2(al, bl, cl, dl, el, x6, 0x5a827999u32, 9);
    let u = rotl32(cl, 10);
    al = el; el = dl; dl = u; cl = bl; bl = t;
    let t = rmd_step4(ar, br, cr, dr, er, x13, 0x5c4dd124u32, 8);
    let u = rotl32(cr, 10);
    ar = er; er = dr; dr = u; cr = br; br = t;
    let t = rmd_step2(al, bl, cl, dl, el, x15, 0x5a827999u32, 7);
    let u = rotl32(cl, 10);
    al = el; el = dl; dl = u; cl = bl; bl = t;
    let t = rmd_step4(ar, br, cr, dr, er, x5, 0x5c4dd124u32, 9);
    let u = rotl32(cr, 10);
    ar = er; er = dr; dr = u; cr = br; br = t;
    let t = rmd_step2(al, bl, cl, dl, el, x3, 0x5a827999u32, 15);
    let u = rotl32(cl, 10);
    al = el; el = dl; dl = u; cl = bl; bl = t;
    let t = rmd_step4(ar, br, cr, dr, er, x10, 0x5c4dd124u32, 11);
    let u = rotl32(cr, 10);
    ar = er; er = dr; dr = u; cr = br; br = t;
    let t = rmd_step2(al, bl, cl, dl, el, x12, 0x5a827999u32, 7);
    let u = rotl32(cl, 10);
    al = el; el = dl; dl = u; cl = bl; bl = t;
    let t = rmd_step4(ar, br, cr, dr, er, x14, 0x5c4dd124u32, 7);
    let u = rotl32(cr, 10);
    ar = er; er = dr; dr = u; cr = br; br = t;
    let t = rmd_step2(al, bl, cl, dl, el, x0, 0x5a827999u32, 12);
    let u = rotl32(cl, 10);
    al = el; el = dl; dl = u; cl = bl; bl = t;
    let t = rmd_step4(ar, br, cr, dr, er, x15, 0x5c4dd124u32, 7);
    let u = rotl32(cr, 10);
    ar = er; er = dr; dr = u; cr = br; br = t;
    let t = rmd_step2(al, bl, cl, dl, el, x9, 0x5a827999u32, 15);
    let u = rotl32(cl, 10);
    al = el; el = dl; dl = u; cl = bl; bl = t;
    let t = rmd_step4(ar, br, cr, dr, er, x8, 0x5c4dd124u32, 12);
    let u = rotl32(cr, 10);
    ar = er; er = dr; dr = u; cr = br; br = t;
    let t = rmd_step2(al, bl, cl, dl, el, x5, 0x5a827999u32, 9);
    let u = rotl32(cl, 10);
    al = el; el = dl; dl = u; cl = bl; bl = t;
    let t = rmd_step4(ar, br, cr, dr, er, x12, 0x5c4dd124u32, 7);
    let u = rotl32(cr, 10);
    ar = er; er = dr; dr = u; cr = br; br = t;
    let t = rmd_step2(al, bl, cl, dl, el, x2, 0x5a827999u32, 11);
    let u = rotl32(cl, 10);
    al = el; el = dl; dl = u; cl = bl; bl = t;
    let t = rmd_step4(ar, br, cr, dr, er, x4, 0x5c4dd124u32, 6);
    let u = rotl32(cr, 10);
    ar = er; er = dr; dr = u; cr = br; br = t;
    let t = rmd_step2(al, bl, cl, dl, el, x14, 0x5a827999u32, 7);
    let u = rotl32(cl, 10);
    al = el; el = dl; dl = u; cl = bl; bl = t;
    let t = rmd_step4(ar, br, cr, dr, er, x9, 0x5c4dd124u32, 15);
    let u = rotl32(cr, 10);
    ar = er; er = dr; dr = u; cr = br; br = t;
    let t = rmd_step2(al, bl, cl, dl, el, x11, 0x5a827999u32, 13);
    let u = rotl32(cl, 10);
    al = el; el = dl; dl = u; cl = bl; bl = t;
    let t = rmd_step4(ar, br, cr, dr, er, x1, 0x5c4dd124u32, 13);
    let u = rotl32(cr, 10);
    ar = er; er = dr; dr = u; cr = br; br = t;
    let t = rmd_step2(al, bl, cl, dl, el, x8, 0x5a827999u32, 12);
    let u = rotl32(cl, 10);
    al = el; el = dl; dl = u; cl = bl; bl = t;
    let t = rmd_step4(ar, br, cr, dr, er, x2, 0x5c4dd124u32, 11);
    let u = rotl32(cr, 10);
    ar = er; er = dr; dr = u; cr = br; br = t;
    let t = rmd_step3(al, bl, cl, dl, el, x3, 0x6ed9eba1u32, 11);
    let u = rotl32(cl, 10);
    al = el; el = dl; dl = u; cl = bl; bl = t;
    let t = rmd_step3(ar, br, cr, dr, er, x15, 0x6d703ef3u32, 9);
    let u = rotl32(cr, 10);
    ar = er; er = dr; dr = u; cr = br; br = t;
    let t = rmd_step3(al, bl, cl, dl, el, x10, 0x6ed9eba1u32, 13);
    let u = rotl32(cl, 10);
    al = el; el = dl; dl = u; cl = bl; bl = t;
    let t = rmd_step3(ar, br, cr, dr, er, x5, 0x6d703ef3u32, 7);
    let u = rotl32(cr, 10);
    ar = er; er = dr; dr = u; cr = br; br = t;
    let t = rmd_step3(al, bl, cl, dl, el, x14, 0x6ed9eba1u32, 6);
    let u = rotl32(cl, 10);
    al = el; el = dl; dl = u; cl = bl; bl = t;
    let t = rmd_step3(ar, br, cr, dr, er, x1, 0x6d703ef3u32, 15);
    let u = rotl32(cr, 10);
    ar = er; er = dr; dr = u; cr = br; br = t;
    let t = rmd_step3(al, bl, cl, dl, el, x4, 0x6ed9eba1u32, 7);
    let u = rotl32(cl, 10);
    al = el; el = dl; dl = u; cl = bl; bl = t;
    let t = rmd_step3(ar, br, cr, dr, er, x3, 0x6d703ef3u32, 11);
    let u = rotl32(cr, 10);
    ar = er; er = dr; dr = u; cr = br; br = t;
    let t = rmd_step3(al, bl, cl, dl, el, x9, 0x6ed9eba1u32, 14);
    let u = rotl32(cl, 10);
    al = el; el = dl; dl = u; cl = bl; bl = t;
    let t = rmd_step3(ar, br, cr, dr, er, x7, 0x6d703ef3u32, 8);
    let u = rotl32(cr, 10);
    ar = er; er = dr; dr = u; cr = br; br = t;
    let t = rmd_step3(al, bl, cl, dl, el, x15, 0x6ed9eba1u32, 9);
    let u = rotl32(cl, 10);
    al = el; el = dl; dl = u; cl = bl; bl = t;
    let t = rmd_step3(ar, br, cr, dr, er, x14, 0x6d703ef3u32, 6);
    let u = rotl32(cr, 10);
    ar = er; er = dr; dr = u; cr = br; br = t;
    let t = rmd_step3(al, bl, cl, dl, el, x8, 0x6ed9eba1u32, 13);
    let u = rotl32(cl, 10);
    al = el; el = dl; dl = u; cl = bl; bl = t;
    let t = rmd_step3(ar, br, cr, dr, er, x6, 0x6d703ef3u32, 6);
    let u = rotl32(cr, 10);
    ar = er; er = dr; dr = u; cr = br; br = t;
    let t = rmd_step3(al, bl, cl, dl, el, x1, 0x6ed9eba1u32, 15);
    let u = rotl32(cl, 10);
    al = el; el = dl; dl = u; cl = bl; bl = t;
    let t = rmd_step3(ar, br, cr, dr, er, x9, 0x6d703ef3u32, 14);
    let u = rotl32(cr, 10);
    ar = er; er = dr; dr = u; cr = br; br = t;
    let t = rmd_step3(al, bl, cl, dl, el, x2, 0x6ed9eba1u32, 14);
    let u = rotl32(cl, 10);
    al = el; el = dl; dl = u; cl = bl; bl = t;
    let t = rmd_step3(ar, br, cr, dr, er, x11, 0x6d703ef3u32, 12);
    let u = rotl32(cr, 10);
    ar = er; er = dr; dr = u; cr = br; br = t;
    let t = rmd_step3(al, bl, cl, dl, el, x7, 0x6ed9eba1u32, 8);
    let u = rotl32(cl, 10);
    al = el; el = dl; dl = u; cl = bl; bl = t;
    let t = rmd_step3(ar, br, cr, dr, er, x8, 0x6d703ef3u32, 13);
    let u = rotl32(cr, 10);
    ar = er; er = dr; dr = u; cr = br; br = t;
    let t = rmd_step3(al, bl, cl, dl, el, x0, 0x6ed9eba1u32, 13);
    let u = rotl32(cl, 10);
    al = el; el = dl; dl = u; cl = bl; bl = t;
    let t = rmd_step3(ar, br, cr, dr, er, x12, 0x6d703ef3u32, 5);
    let u = rotl32(cr, 10);
    ar = er; er = dr; dr = u; cr = br; br = t;
    let t = rmd_step3(al, bl, cl, dl, el, x6, 0x6ed9eba1u32, 6);
    let u = rotl32(cl, 10);
    al = el; el = dl; dl = u; cl = bl; bl = t;
    let t = rmd_step3(ar, br, cr, dr, er, x2, 0x6d703ef3u32, 14);
    let u = rotl32(cr, 10);
    ar = er; er = dr; dr = u; cr = br; br = t;
    let t = rmd_step3(al, bl, cl, dl, el, x13, 0x6ed9eba1u32, 5);
    let u = rotl32(cl, 10);
    al = el; el = dl; dl = u; cl = bl; bl = t;
    let t = rmd_step3(ar, br, cr, dr, er, x10, 0x6d703ef3u32, 13);
    let u = rotl32(cr, 10);
    ar = er; er = dr; dr = u; cr = br; br = t;
    let t = rmd_step3(al, bl, cl, dl, el, x11, 0x6ed9eba1u32, 12);
    let u = rotl32(cl, 10);
    al = el; el = dl; dl = u; cl = bl; bl = t;
    let t = rmd_step3(ar, br, cr, dr, er, x0, 0x6d703ef3u32, 13);
    let u = rotl32(cr, 10);
    ar = er; er = dr; dr = u; cr = br; br = t;
    let t = rmd_step3(al, bl, cl, dl, el, x5, 0x6ed9eba1u32, 7);
    let u = rotl32(cl, 10);
    al = el; el = dl; dl = u; cl = bl; bl = t;
    let t = rmd_step3(ar, br, cr, dr, er, x4, 0x6d703ef3u32, 7);
    let u = rotl32(cr, 10);
    ar = er; er = dr; dr = u; cr = br; br = t;
    let t = rmd_step3(al, bl, cl, dl, el, x12, 0x6ed9eba1u32, 5);
    let u = rotl32(cl, 10);
    al = el; el = dl; dl = u; cl = bl; bl = t;
    let t = rmd_step3(ar, br, cr, dr, er, x13, 0x6d703ef3u32, 5);
    let u = rotl32(cr, 10);
    ar = er; er = dr; dr = u; cr = br; br = t;
    let t = rmd_step4(al, bl, cl, dl, el, x1, 0x8f1bbcdcu32, 11);
    let u = rotl32(cl, 10);
    al = el; el = dl; dl = u; cl = bl; bl = t;
    let t = rmd_step2(ar, br, cr, dr, er, x8, 0x7a6d76e9u32, 15);
    let u = rotl32(cr, 10);
    ar = er; er = dr; dr = u; cr = br; br = t;
    let t = rmd_step4(al, bl, cl, dl, el, x9, 0x8f1bbcdcu32, 12);
    let u = rotl32(cl, 10);
    al = el; el = dl; dl = u; cl = bl; bl = t;
    let t = rmd_step2(ar, br, cr, dr, er, x6, 0x7a6d76e9u32, 5);
    let u = rotl32(cr, 10);
    ar = er; er = dr; dr = u; cr = br; br = t;
    let t = rmd_step4(al, bl, cl, dl, el, x11, 0x8f1bbcdcu32, 14);
    let u = rotl32(cl, 10);
    al = el; el = dl; dl = u; cl = bl; bl = t;
    let t = rmd_step2(ar, br, cr, dr, er, x4, 0x7a6d76e9u32, 8);
    let u = rotl32(cr, 10);
    ar = er; er = dr; dr = u; cr = br; br = t;
    let t = rmd_step4(al, bl, cl, dl, el, x10, 0x8f1bbcdcu32, 15);
    let u = rotl32(cl, 10);
    al = el; el = dl; dl = u; cl = bl; bl = t;
    let t = rmd_step2(ar, br, cr, dr, er, x1, 0x7a6d76e9u32, 11);
    let u = rotl32(cr, 10);
    ar = er; er = dr; dr = u; cr = br; br = t;
    let t = rmd_step4(al, bl, cl, dl, el, x0, 0x8f1bbcdcu32, 14);
    let u = rotl32(cl, 10);
    al = el; el = dl; dl = u; cl = bl; bl = t;
    let t = rmd_step2(ar, br, cr, dr, er, x3, 0x7a6d76e9u32, 14);
    let u = rotl32(cr, 10);
    ar = er; er = dr; dr = u; cr = br; br = t;
    let t = rmd_step4(al, bl, cl, dl, el, x8, 0x8f1bbcdcu32, 15);
    let u = rotl32(cl, 10);
    al = el; el = dl; dl = u; cl = bl; bl = t;
    let t = rmd_step2(ar, br, cr, dr, er, x11, 0x7a6d76e9u32, 14);
    let u = rotl32(cr, 10);
    ar = er; er = dr; dr = u; cr = br; br = t;
    let t = rmd_step4(al, bl, cl, dl, el, x12, 0x8f1bbcdcu32, 9);
    let u = rotl32(cl, 10);
    al = el; el = dl; dl = u; cl = bl; bl = t;
    let t = rmd_step2(ar, br, cr, dr, er, x15, 0x7a6d76e9u32, 6);
    let u = rotl32(cr, 10);
    ar = er; er = dr; dr = u; cr = br; br = t;
    let t = rmd_step4(al, bl, cl, dl, el, x4, 0x8f1bbcdcu32, 8);
    let u = rotl32(cl, 10);
    al = el; el = dl; dl = u; cl = bl; bl = t;
    let t = rmd_step2(ar, br, cr, dr, er, x0, 0x7a6d76e9u32, 14);
    let u = rotl32(cr, 10);
    ar = er; er = dr; dr = u; cr = br; br = t;
    let t = rmd_step4(al, bl, cl, dl, el, x13, 0x8f1bbcdcu32, 9);
    let u = rotl32(cl, 10);
    al = el; el = dl; dl = u; cl = bl; bl = t;
    let t = rmd_step2(ar, br, cr, dr, er, x5, 0x7a6d76e9u32, 6);
    let u = rotl32(cr, 10);
    ar = er; er = dr; dr = u; cr = br; br = t;
    let t = rmd_step4(al, bl, cl, dl, el, x3, 0x8f1bbcdcu32, 14);
    let u = rotl32(cl, 10);
    al = el; el = dl; dl = u; cl = bl; bl = t;
    let t = rmd_step2(ar, br, cr, dr, er, x12, 0x7a6d76e9u32, 9);
    let u = rotl32(cr, 10);
    ar = er; er = dr; dr = u; cr = br; br = t;
    let t = rmd_step4(al, bl, cl, dl, el, x7, 0x8f1bbcdcu32, 5);
    let u = rotl32(cl, 10);
    al = el; el = dl; dl = u; cl = bl; bl = t;
    let t = rmd_step2(ar, br, cr, dr, er, x2, 0x7a6d76e9u32, 12);
    let u = rotl32(cr, 10);
    ar = er; er = dr; dr = u; cr = br; br = t;
    let t = rmd_step4(al, bl, cl, dl, el, x15, 0x8f1bbcdcu32, 6);
    let u = rotl32(cl, 10);
    al = el; el = dl; dl = u; cl = bl; bl = t;
    let t = rmd_step2(ar, br, cr, dr, er, x13, 0x7a6d76e9u32, 9);
    let u = rotl32(cr, 10);
    ar = er; er = dr; dr = u; cr = br; br = t;
    let t = rmd_step4(al, bl, cl, dl, el, x14, 0x8f1bbcdcu32, 8);
    let u = rotl32(cl, 10);
    al = el; el = dl; dl = u; cl = bl; bl = t;
    let t = rmd_step2(ar, br, cr, dr, er, x9, 0x7a6d76e9u32, 12);
    let u = rotl32(cr, 10);
    ar = er; er = dr; dr = u; cr = br; br = t;
    let t = rmd_step4(al, bl, cl, dl, el, x5, 0x8f1bbcdcu32, 6);
    let u = rotl32(cl, 10);
    al = el; el = dl; dl = u; cl = bl; bl = t;
    let t = rmd_step2(ar, br, cr, dr, er, x7, 0x7a6d76e9u32, 5);
    let u = rotl32(cr, 10);
    ar = er; er = dr; dr = u; cr = br; br = t;
    let t = rmd_step4(al, bl, cl, dl, el, x6, 0x8f1bbcdcu32, 5);
    let u = rotl32(cl, 10);
    al = el; el = dl; dl = u; cl = bl; bl = t;
    let t = rmd_step2(ar, br, cr, dr, er, x10, 0x7a6d76e9u32, 15);
    let u = rotl32(cr, 10);
    ar = er; er = dr; dr = u; cr = br; br = t;
    let t = rmd_step4(al, bl, cl, dl, el, x2, 0x8f1bbcdcu32, 12);
    let u = rotl32(cl, 10);
    al = el; el = dl; dl = u; cl = bl; bl = t;
    let t = rmd_step2(ar, br, cr, dr, er, x14, 0x7a6d76e9u32, 8);
    let u = rotl32(cr, 10);
    ar = er; er = dr; dr = u; cr = br; br = t;
    let t = rmd_step5(al, bl, cl, dl, el, x4, 0xa953fd4eu32, 9);
    let u = rotl32(cl, 10);
    al = el; el = dl; dl = u; cl = bl; bl = t;
    let t = rmd_step1(ar, br, cr, dr, er, x12, 0x00000000u32, 8);
    let u = rotl32(cr, 10);
    ar = er; er = dr; dr = u; cr = br; br = t;
    let t = rmd_step5(al, bl, cl, dl, el, x0, 0xa953fd4eu32, 15);
    let u = rotl32(cl, 10);
    al = el; el = dl; dl = u; cl = bl; bl = t;
    let t = rmd_step1(ar, br, cr, dr, er, x15, 0x00000000u32, 5);
    let u = rotl32(cr, 10);
    ar = er; er = dr; dr = u; cr = br; br = t;
    let t = rmd_step5(al, bl, cl, dl, el, x5, 0xa953fd4eu32, 5);
    let u = rotl32(cl, 10);
    al = el; el = dl; dl = u; cl = bl; bl = t;
    let t = rmd_step1(ar, br, cr, dr, er, x10, 0x00000000u32, 12);
    let u = rotl32(cr, 10);
    ar = er; er = dr; dr = u; cr = br; br = t;
    let t = rmd_step5(al, bl, cl, dl, el, x9, 0xa953fd4eu32, 11);
    let u = rotl32(cl, 10);
    al = el; el = dl; dl = u; cl = bl; bl = t;
    let t = rmd_step1(ar, br, cr, dr, er, x4, 0x00000000u32, 9);
    let u = rotl32(cr, 10);
    ar = er; er = dr; dr = u; cr = br; br = t;
    let t = rmd_step5(al, bl, cl, dl, el, x7, 0xa953fd4eu32, 6);
    let u = rotl32(cl, 10);
    al = el; el = dl; dl = u; cl = bl; bl = t;
    let t = rmd_step1(ar, br, cr, dr, er, x1, 0x00000000u32, 12);
    let u = rotl32(cr, 10);
    ar = er; er = dr; dr = u; cr = br; br = t;
    let t = rmd_step5(al, bl, cl, dl, el, x12, 0xa953fd4eu32, 8);
    let u = rotl32(cl, 10);
    al = el; el = dl; dl = u; cl = bl; bl = t;
    let t = rmd_step1(ar, br, cr, dr, er, x5, 0x00000000u32, 5);
    let u = rotl32(cr, 10);
    ar = er; er = dr; dr = u; cr = br; br = t;
    let t = rmd_step5(al, bl, cl, dl, el, x2, 0xa953fd4eu32, 13);
    let u = rotl32(cl, 10);
    al = el; el = dl; dl = u; cl = bl; bl = t;
    let t = rmd_step1(ar, br, cr, dr, er, x8, 0x00000000u32, 14);
    let u = rotl32(cr, 10);
    ar = er; er = dr; dr = u; cr = br; br = t;
    let t = rmd_step5(al, bl, cl, dl, el, x10, 0xa953fd4eu32, 12);
    let u = rotl32(cl, 10);
    al = el; el = dl; dl = u; cl = bl; bl = t;
    let t = rmd_step1(ar, br, cr, dr, er, x7, 0x00000000u32, 6);
    let u = rotl32(cr, 10);
    ar = er; er = dr; dr = u; cr = br; br = t;
    let t = rmd_step5(al, bl, cl, dl, el, x14, 0xa953fd4eu32, 5);
    let u = rotl32(cl, 10);
    al = el; el = dl; dl = u; cl = bl; bl = t;
    let t = rmd_step1(ar, br, cr, dr, er, x6, 0x00000000u32, 8);
    let u = rotl32(cr, 10);
    ar = er; er = dr; dr = u; cr = br; br = t;
    let t = rmd_step5(al, bl, cl, dl, el, x1, 0xa953fd4eu32, 12);
    let u = rotl32(cl, 10);
    al = el; el = dl; dl = u; cl = bl; bl = t;
    let t = rmd_step1(ar, br, cr, dr, er, x2, 0x00000000u32, 13);
    let u = rotl32(cr, 10);
    ar = er; er = dr; dr = u; cr = br; br = t;
    let t = rmd_step5(al, bl, cl, dl, el, x3, 0xa953fd4eu32, 13);
    let u = rotl32(cl, 10);
    al = el; el = dl; dl = u; cl = bl; bl = t;
    let t = rmd_step1(ar, br, cr, dr, er, x13, 0x00000000u32, 6);
    let u = rotl32(cr, 10);
    ar = er; er = dr; dr = u; cr = br; br = t;
    let t = rmd_step5(al, bl, cl, dl, el, x8, 0xa953fd4eu32, 14);
    let u = rotl32(cl, 10);
    al = el; el = dl; dl = u; cl = bl; bl = t;
    let t = rmd_step1(ar, br, cr, dr, er, x14, 0x00000000u32, 5);
    let u = rotl32(cr, 10);
    ar = er; er = dr; dr = u; cr = br; br = t;
    let t = rmd_step5(al, bl, cl, dl, el, x11, 0xa953fd4eu32, 11);
    let u = rotl32(cl, 10);
    al = el; el = dl; dl = u; cl = bl; bl = t;
    let t = rmd_step1(ar, br, cr, dr, er, x0, 0x00000000u32, 15);
    let u = rotl32(cr, 10);
    ar = er; er = dr; dr = u; cr = br; br = t;
    let t = rmd_step5(al, bl, cl, dl, el, x6, 0xa953fd4eu32, 8);
    let u = rotl32(cl, 10);
    al = el; el = dl; dl = u; cl = bl; bl = t;
    let t = rmd_step1(ar, br, cr, dr, er, x3, 0x00000000u32, 13);
    let u = rotl32(cr, 10);
    ar = er; er = dr; dr = u; cr = br; br = t;
    let t = rmd_step5(al, bl, cl, dl, el, x15, 0xa953fd4eu32, 5);
    let u = rotl32(cl, 10);
    al = el; el = dl; dl = u; cl = bl; bl = t;
    let t = rmd_step1(ar, br, cr, dr, er, x9, 0x00000000u32, 11);
    let u = rotl32(cr, 10);
    ar = er; er = dr; dr = u; cr = br; br = t;
    let t = rmd_step5(al, bl, cl, dl, el, x13, 0xa953fd4eu32, 6);
    let u = rotl32(cl, 10);
    al = el; el = dl; dl = u; cl = bl; bl = t;
    let t = rmd_step1(ar, br, cr, dr, er, x11, 0x00000000u32, 11);
    let u = rotl32(cr, 10);
    ar = er; er = dr; dr = u; cr = br; br = t;
    let h0 = state.1.wrapping_add(cl).wrapping_add(dr);
    let h1 = state.2.wrapping_add(dl).wrapping_add(er);
    let h2 = state.3.wrapping_add(el).wrapping_add(ar);
    let h3 = state.4.wrapping_add(al).wrapping_add(br);
    let h4 = state.0.wrapping_add(bl).wrapping_add(cr);
    state.0 = h0; state.1 = h1; state.2 = h2; state.3 = h3; state.4 = h4;
}

pub open spec fn rmd160_init() -> (u32, u32, u32, u32, u32) {
    (0x67452301u32, 0xefcdab89u32, 0x98badcfeu32, 0x10325476u32, 0xc3d2e1f0u32)
}

/// Fold the compression function over every complete 64-byte block of `m`.
pub open spec fn rmd160_blocks(s: (u32, u32, u32, u32, u32), m: Seq<u8>) -> (u32, u32, u32, u32, u32)
    decreases m.len(),
{
    if m.len() < 64 {
        s
    } else {
        rmd160_blocks(rmd160_compress_spec(s, m.take(64)), m.skip(64))
    }
}

/// Folding a block-aligned prefix and then the rest equals folding the
/// concatenation: the engine of chunk-invariance.
pub proof fn lemma_rmd160_blocks_concat(s: (u32, u32, u32, u32, u32), a: Seq<u8>, b: Seq<u8>)
    requires
        a.len() % 64 == 0,
    ensures
        rmd160_blocks(s, a + b) == rmd160_blocks(rmd160_blocks(s, a), b),
    decreases a.len(),
{
    if a.len() == 0 {
        assert(a + b =~= b);
    } else {
        assert(a.len() >= 64);
        assert((a + b).take(64) =~= a.take(64));
        assert((a + b).skip(64) =~= a.skip(64) + b);
        assert(a.skip(64).len() % 64 == 0);
        lemma_rmd160_blocks_concat(rmd160_compress_spec(s, a.take(64)), a.skip(64), b);
    }
}

/// Little-endian serialization of the final state.
pub open spec fn rmd160_output(s: (u32, u32, u32, u32, u32)) -> Seq<u8> {
    le32_bytes(s.0) + le32_bytes(s.1) + le32_bytes(s.2) + le32_bytes(s.3) + le32_bytes(s.4)
}

/// The digest of an arbitrary byte sequence.
pub open spec fn rmd160_of(m: Seq<u8>) -> Seq<u8> {
    rmd160_output(rmd160_blocks(rmd160_init(), pad_md_le64(m)))
}

/// Fold over an explicit list of blocks, as `update_blocks` consumes them.
pub open spec fn rmd160_blocks_list(s: (u32, u32, u32, u32, u32), bs: Seq<[u8; 64]>) -> (u32, u32, u32, u32, u32)
    decreases bs.len(),
{
    if bs.len() == 0 {
        s
    } else {
        rmd160_blocks_list(rmd160_compress_spec(s, bs[0]@), bs.skip(1))
    }
}

/// Core hasher state: the chaining words and the exact count of processed
/// blocks, which the published specification assumes never overflows.
#[derive(Clone, Copy, Debug)]
pub struct Ripemd160Core {
    pub h: (u32, u32, u32, u32, u32),
    pub block_len: u64,
}

impl Default for Ripemd160Core {
    fn default() -> (r: Self)
        ensures
            r.h == rmd160_init(),
            r.block_len == 0,
    {
        Ripemd160Core { h: (0x67452301u32, 0xefcdab89u32, 0x98badcfeu32, 0x10325476u32, 0xc3d2e1f0u32), block_len: 0 }
    }
}

impl Ripemd160Core {
    pub fn reset(&mut self)
        ensures
            final(self).h == rmd160_init(),
            final(self).block_len == 0,
    {
        self.block_len = 0;
        self.h = (0x67452301u32, 0xefcdab89u32, 0x98badcfeu32, 0x10325476u32, 0xc3d2e1f0u32);
    }

    /// Consume a list of complete blocks; the caller keeps the block count
    /// below 2^64, as the published specification assumes.
    pub fn update_blocks(&mut self, blocks: &[[u8; 64]])
        requires
            old(self).block_len + blocks@.len() <= u64::MAX,
        ensures
            final(self).h == rmd160_blocks_list(old(self).h, blocks@),
            final(self).block_len == old(self).block_len + blocks@.len(),
    {
        self.block_len = self.block_len + blocks.len() as u64;
        proof {
            assert(blocks@.skip(0) =~= blocks@);
        }
        let mut i: usize = 0;
        while i < blocks.len()
            invariant
                i <= blocks.len(),
                self.block_len == old(self).block_len + blocks@.len(),
                rmd160_blocks_list(self.h, blocks@.skip(i as int)) == rmd160_blocks_list(
                    old(self).h,
                    blocks@,
                ),
            decreases blocks.len() - i,
        {
            proof {
                assert(blocks@.skip(i as int)[0] == blocks@[i as int]);
                assert(blocks@.skip(i as int).skip(1) =~= blocks@.skip(i as int + 1));
            }
            let blk = blocks[i];
            rmd160_compress(&mut self.h, &blk);
            i += 1;
        }
        proof {
            assert(blocks@.skip(blocks@.len() as int) =~= Seq::<[u8; 64]>::empty());
        }
    }

    /// Pad the buffered tail, fold the final block or blocks, and emit the
    /// digest bytes little-endian.
    pub fn finalize_fixed_core(&mut self, buffer: &mut BlockBuffer64) -> (out: [u8; 20])
        requires
            old(buffer).wf(),
            8 * (old(buffer).pos as int + 64 * old(self).block_len as int) < 0x1_0000_0000_0000_0000,
        ensures
            out@ == rmd160_output(
                rmd160_blocks(
                    old(self).h,
                    tail_pad_le64(
                        old(buffer)@,
                        rmd_bitlen(old(self).block_len, old(buffer).pos as u64),
                    ),
                ),
            ),
    {
        let bitlen = 8 * (buffer.pos as u64 + 64 * self.block_len);
        proof {
            assert(rmd_bitlen(self.block_len, buffer.pos as u64) == bitlen);
        }
        let pos = buffer.pos;
        let ghost tail = buffer@;
        let ghost padded = tail_pad_le64(tail, bitlen);
        buffer.block[pos] = 0x80;
        let mut i: usize = pos + 1;
        while i < 64
            invariant
                pos + 1 <= i <= 64,
                buffer.block@.len() == 64,
                buffer.block@.take(pos as int) == tail,
                buffer.block@[pos as int] == 0x80u8,
                forall|j: int| pos < j < i ==> buffer.block@[j] == 0u8,
            decreases 64 - i,
        {
            buffer.block[i] = 0;
            i += 1;
        }
        if pos < 56 {
            buffer.block[56] = bitlen as u8;
            buffer.block[57] = (bitlen >> 8) as u8;
            buffer.block[58] = (bitlen >> 16) as u8;
            buffer.block[59] = (bitlen >> 24) as u8;
            buffer.block[60] = (bitlen >> 32) as u8;
            buffer.block[61] = (bitlen >> 40) as u8;
            buffer.block[62] = (bitlen >> 48) as u8;
            buffer.block[63] = (bitlen >> 56) as u8;
            proof {
                reveal_with_fuel(rmd160_blocks, 3);
                assert(md_pad_zeros(tail.len()) == 55 - pos);
                assert(padded.len() == 64);
                assert(buffer.block@ =~= padded);
                assert(padded.skip(64).len() == 0);
            }
            rmd160_compress(&mut self.h, &buffer.block);
            proof {
                assert(padded.take(64) =~= buffer.block@);
                assert(self.h == rmd160_blocks(old(self).h, padded));
            }
        } else {
            rmd160_compress(&mut self.h, &buffer.block);
            let ghost first = buffer.block@;
            let mut last = [0u8; 64];
            last[56] = bitlen as u8;
            last[57] = (bitlen >> 8) as u8;
            last[58] = (bitlen >> 16) as u8;
            last[59] = (bitlen >> 24) as u8;
            last[60] = (bitlen >> 32) as u8;
            last[61] = (bitlen >> 40) as u8;
            last[62] = (bitlen >> 48) as u8;
            last[63] = (bitlen >> 56) as u8;
            rmd160_compress(&mut self.h, &last);
            proof {
                reveal_with_fuel(rmd160_blocks, 3);
                assert(md_pad_zeros(tail.len()) == 119 - pos);
                assert(padded.len() == 128);
                assert(padded.take(64) =~= first);
                assert(padded.skip(64).take(64) =~= last@);
                assert(padded.skip(64).skip(64).len() == 0);
                assert(padded.skip(64) =~= padded.skip(64).take(64) + padded.skip(64).skip(64));
                assert(self.h == rmd160_blocks(old(self).h, padded));
            }
        }
        let mut out = [0u8; 20];
        out[0] = self.h.0 as u8;
        out[1] = (self.h.0 >> 8) as u8;
        out[2] = (self.h.0 >> 16) as u8;
        out[3] = (self.h.0 >> 24) as u8;
        out[4] = self.h.1 as u8;
        out[5] = (self.h.1 >> 8) as u8;
        out[6] = (self.h.1 >> 16) as u8;
        out[7] = (self.h.1 >> 24) as u8;
        out[8] = self.h.2 as u8;
        out[9] = (self.h.2 >> 8) as u8;
        out[10] = (self.h.2 >> 16) as u8;
        out[11] = (self.h.2 >> 24) as u8;
        out[12] = self.h.3 as u8;
        out[13] = (self.h.3 >> 8) as u8;
        out[14] = (self.h.3 >> 16) as u8;
        out[15] = (self.h.3 >> 24) as u8;
        out[16] = self.h.4 as u8;
        out[17] = (self.h.4 >> 8) as u8;
        out[18] = (self.h.4 >> 16) as u8;
        out[19] = (self.h.4 >> 24) as u8;
        proof {
            assert(out@ =~= rmd160_output(self.h));
        }
        out
    }
}

/// Streaming hasher. Its view is the exact byte sequence fed so far;
/// `finalize` is pinned to `rmd160_of` of that sequence, so how the input
/// was chunked across `update` calls can never affect the digest.
#[derive(Clone, Copy)]
pub struct Ripemd160 {
    core: Ripemd160Core,
    buffer: BlockBuffer64,
    msg: Ghost<Seq<u8>>,
}

impl View for Ripemd160 {
    type V = Seq<u8>;

    closed spec fn view(&self) -> Seq<u8> {
        self.msg@
    }
}

impl Ripemd160 {
    /// The compressed prefix, buffered tail, and block counter all agree
    /// with the message fed so far, which stays below 2^64 bits.
    pub closed spec fn wf(&self) -> bool {
        let l = self.msg@.len();
        let full = (l - (l % 64)) as int;
        &&& self.buffer.wf()
        &&& 8 * l < 0x1_0000_0000_0000_0000
        &&& self.buffer.pos == l % 64
        &&& self.buffer@ == self.msg@.skip(full)
        &&& self.core.h == rmd160_blocks(rmd160_init(), self.msg@.take(full))
        &&& self.core.block_len == l / 64
    }

    pub fn new() -> (r: Self)
        ensures
            r.wf(),
            r@ == Seq::<u8>::empty(),
    {
        let r = Ripemd160 {
            core: Default::default(),
            buffer: BlockBuffer64::new(),
            msg: Ghost(Seq::empty()),
        };
        proof {
            assert(r.msg@.take(0) =~= Seq::<u8>::empty());
            assert(r.msg@.skip(0) =~= Seq::<u8>::empty());
        }
        r
    }

    /// Absorb a chunk of any length; the view grows by exactly that chunk.
    /// The total message stays below the 2^64-bit limit of the published
    /// specification.
    pub fn update(&mut self, data: &[u8])
        requires
            old(self).wf(),
            8 * (old(self)@.len() + data@.len()) < 0x1_0000_0000_0000_0000,
        ensures
            final(self).wf(),
            final(self)@ == old(self)@ + data@,
    {
        let ghost m0 = self.msg@;
        proof {
            assert(m0 + data@.take(0) =~= m0);
        }
        let mut i: usize = 0;
        while i < data.len()
            invariant
                i <= data.len(),
                self.wf(),
                8 * (m0.len() + data@.len()) < 0x1_0000_0000_0000_0000,
                self.msg@ == m0 + data@.take(i as int),
            decreases data.len() - i,
        {
            let b = data[i];
            let ghost m = self.msg@;
            let ghost l = m.len();
            let ghost full = (l - (l % 64)) as int;
            let pos = self.buffer.pos;
            self.buffer.block[pos] = b;
            self.buffer.pos = pos + 1;
            self.msg = Ghost(m + seq![b]);
            proof {
                assert(data@.take(i as int + 1) =~= data@.take(i as int) + seq![b]);
                assert(self.msg@ =~= m0 + data@.take(i as int + 1));
                assert(self.msg@.len() == l + 1);
                assert(self.msg@.take(full) =~= m.take(full));
                assert(self.msg@.skip(full) =~= m.skip(full) + seq![b]);
                assert(self.buffer.block@.take(pos as int + 1) =~= m.skip(full) + seq![b]);
            }
            if self.buffer.pos == 64 {
                rmd160_compress(&mut self.core.h, &self.buffer.block);
                self.core.block_len = self.core.block_len + 1;
                self.buffer.pos = 0;
                proof {
                    reveal_with_fuel(rmd160_blocks, 2);
                    let m2 = self.msg@;
                    let l2 = m2.len();
                    assert(l % 64 == 63);
                    assert(l2 % 64 == 0);
                    assert(full == l2 - 64);
                    assert(self.buffer.block@ =~= m2.skip(full));
                    assert(self.buffer.block@.len() == 64);
                    lemma_rmd160_blocks_concat(rmd160_init(), m2.take(full), m2.skip(full));
                    assert(m2.take(full) + m2.skip(full) =~= m2);
                    assert(m2.skip(full).take(64) =~= m2.skip(full));
                    assert(m2.take(l2 as int) =~= m2);
                    assert(self.buffer.block@.take(0) =~= m2.skip(l2 as int));
                    assert(l2 / 64 == l / 64 + 1);
                }
            }
            i += 1;
        }
        proof {
            assert(data@.take(data@.len() as int) =~= data@);
        }
    }

    /// Pad and emit the digest of everything fed so far. The hasher itself
    /// is left untouched, matching a pure read of the stream's digest.
    #[verifier::rlimit(60)]
    pub fn finalize(&self) -> (out: [u8; 20])
        requires
            self.wf(),
        ensures
            out@ == rmd160_of(self@),
    {
        let mut core = self.core;
        let mut buffer = self.buffer;
        proof {
            vstd::arithmetic::div_mod::lemma_fundamental_div_mod(self.msg@.len() as int, 64);
        }
        let out = core.finalize_fixed_core(&mut buffer);
        proof {
            let l = self.msg@.len();
            let full = (l - (l % 64)) as int;
            lemma_pad_md_le64_split(self.msg@);
            assert(rmd_bitlen((l / 64) as u64, (l % 64) as u64) == md_bitlen64(l));
            assert(self.msg@.take(full).len() % 64 == 0);
            lemma_rmd160_blocks_concat(
                rmd160_init(),
                self.msg@.take(full),
                tail_pad_le64(self.msg@.skip(full), md_bitlen64(l)),
            );
        }
        out
    }

    /// Restore the fixed initial state, discarding all buffered input.
    pub fn reset(&mut self)
        ensures
            final(self).wf(),
            final(self)@ == Seq::<u8>::empty(),
    {
        self.core.reset();
        self.buffer.pos = 0;
        self.msg = Ghost(Seq::empty());
        proof {
            assert(self.msg@.take(0) =~= Seq::<u8>::empty());
            assert(self.msg@.skip(0) =~= Seq::<u8>::empty());
            assert(self.buffer.block@.take(0) =~= Seq::<u8>::empty());
        }
    }
}

} // verus!
