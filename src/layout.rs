use vstd::prelude::*;
use crate::error::PipelineError;
use crate::pixels::{PixelBuffer, byte_len, row_len};

verus! {

/// The tightly packed image held in `src`, whose `height` rows of `row_bytes`
/// bytes each start `pitch` bytes apart.
pub open spec fn packed_rows(src: Seq<u8>, pitch: nat, row_bytes: nat, height: nat) -> Seq<u8> {
    Seq::new(
        row_bytes * height,
        |i: int| src[(i / row_bytes as int) * pitch as int + i % row_bytes as int],
    )
}

/// Where byte `x` of row `y` lies, in the packed image and in the pitched source.
proof fn lemma_row_index(y: int, x: int, row_bytes: int, pitch: int, height: int)
    requires
        0 <= y < height,
        0 <= x < row_bytes,
        row_bytes <= pitch,
    ensures
        (y * row_bytes + x) / row_bytes == y,
        (y * row_bytes + x) % row_bytes == x,
        y * row_bytes + x < row_bytes * height,
        y * pitch + x < pitch * height,
        y * pitch + row_bytes <= pitch * height,
{
    vstd::arithmetic::div_mod::lemma_fundamental_div_mod_converse(
        y * row_bytes + x,
        row_bytes,
        y,
        x,
    );
    assert(y * row_bytes + x < row_bytes * height && y * pitch + row_bytes <= pitch * height)
        by (nonlinear_arith)
        requires
            0 <= y < height,
            0 <= x < row_bytes,
            row_bytes <= pitch,
    {
    }
}

/// Copies the image out of a staging buffer whose rows start `bytes_per_row`
/// bytes apart, dropping the padding at the end of each row.
///
/// Fails with `SizeMismatch` when a row does not fit in `bytes_per_row`, or
/// when the buffer does not hold exactly `height` rows of that pitch.
pub fn readback(staging: &[u8], bytes_per_row: usize, width: u32, height: u32) -> (r: Result<
    PixelBuffer,
    PipelineError,
>)
    ensures
        r is Ok <==> (row_len(width as nat) <= bytes_per_row && staging@.len() == bytes_per_row
            * height),
        r matches Ok(pb) ==> {
            &&& pb.width == width
            &&& pb.height == height
            &&& pb.wf()
            &&& pb.pixels@ == packed_rows(
                staging@,
                bytes_per_row as nat,
                row_len(width as nat),
                height as nat,
            )
        },
        bytes_per_row < row_len(width as nat) ==> r == Err::<PixelBuffer, PipelineError>(
            PipelineError::SizeMismatch {
                expected: row_len(width as nat) as u128,
                actual: bytes_per_row as u128,
            },
        ),
        row_len(width as nat) <= bytes_per_row && staging@.len() != bytes_per_row * height ==> r
            == Err::<PixelBuffer, PipelineError>(
            PipelineError::SizeMismatch {
                expected: (bytes_per_row * height) as u128,
                actual: staging@.len() as u128,
            },
        ),
{
    let wide_row: u64 = width as u64 * 4;
    if (bytes_per_row as u64) < wide_row {
        return Err(
            PipelineError::SizeMismatch { expected: wide_row as u128, actual: bytes_per_row as u128 },
        );
    }
    let row_bytes: usize = wide_row as usize;
    proof {
        assert(bytes_per_row * height <= u128::MAX) by (nonlinear_arith)
            requires
                bytes_per_row <= u64::MAX,
                height <= u32::MAX,
        {
        }
    }
    let total: u128 = bytes_per_row as u128 * height as u128;
    if staging.len() as u128 != total {
        return Err(PipelineError::SizeMismatch { expected: total, actual: staging.len() as u128 });
    }
    let len: usize = staging.len();
    let ghost packed = packed_rows(staging@, bytes_per_row as nat, row_bytes as nat, height as nat);
    let mut out: Vec<u8> = Vec::new();
    let mut y: usize = 0;
    while y < height as usize
        invariant
            row_bytes == row_len(width as nat),
            row_bytes <= bytes_per_row,
            staging@.len() == bytes_per_row * height,
            staging@.len() == len,
            packed == packed_rows(staging@, bytes_per_row as nat, row_bytes as nat, height as nat),
            y <= height,
            out@.len() == y * row_bytes,
            forall|i: int| 0 <= i < out@.len() ==> out@[i] == packed[i],
        decreases height - y,
    {
        proof {
            assert(y * bytes_per_row <= staging@.len()) by (nonlinear_arith)
                requires
                    y < height,
                    staging@.len() == bytes_per_row * height,
            {
            }
        }
        let base: usize = y * bytes_per_row;
        let mut x: usize = 0;
        while x < row_bytes
            invariant
                row_bytes == row_len(width as nat),
                row_bytes <= bytes_per_row,
                staging@.len() == bytes_per_row * height,
                staging@.len() == len,
                packed == packed_rows(staging@, bytes_per_row as nat, row_bytes as nat, height as nat),
                y < height,
                base == y * bytes_per_row,
                x <= row_bytes,
                out@.len() == y * row_bytes + x,
                forall|i: int| 0 <= i < out@.len() ==> out@[i] == packed[i],
            decreases row_bytes - x,
        {
            proof {
                lemma_row_index(y as int, x as int, row_bytes as int, bytes_per_row as int, height as int);
            }
            out.push(staging[base + x]);
            x = x + 1;
        }
        proof {
            assert((y + 1) * row_bytes == y * row_bytes + row_bytes) by (nonlinear_arith);
        }
        y = y + 1;
    }
    proof {
        assert(out@.len() == packed.len()) by (nonlinear_arith)
            requires
                out@.len() == y * row_bytes,
                y == height,
                packed.len() == row_bytes * height,
        {
        }
        assert(out@ =~= packed);
        assert(row_bytes * height == byte_len(width as nat, height as nat)) by (nonlinear_arith)
            requires
                row_bytes == width * 4,
        {
        }
    }
    Ok(PixelBuffer { width, height, pixels: out })
}

/// Reading back a surface with the row pitch it was written with gives the
/// bytes that were written: with a kernel that moves no pixel, upload followed
/// by readback returns the input image unchanged.
pub proof fn lemma_round_trip(pb: PixelBuffer)
    requires
        pb.wf(),
    ensures
        packed_rows(
            pb.pixels@,
            row_len(pb.width as nat),
            row_len(pb.width as nat),
            pb.height as nat,
        ) == pb.pixels@,
{
    let rb = row_len(pb.width as nat);
    let h = pb.height as nat;
    let p = packed_rows(pb.pixels@, rb, rb, h);
    assert(rb * h == byte_len(pb.width as nat, h)) by (nonlinear_arith)
        requires
            rb == pb.width * 4,
    {
    }
    assert forall|i: int| 0 <= i < p.len() implies p[i] == pb.pixels@[i] by {
        vstd::arithmetic::div_mod::lemma_fundamental_div_mod(i, rb as int);
        assert((i / rb as int) * rb as int == rb as int * (i / rb as int)) by (nonlinear_arith);
    }
    assert(p =~= pb.pixels@);
}

} // verus!
