use vstd::prelude::*;

verus! {

/// ASCII code of the digit `d`.
pub open spec fn digit(d: nat) -> u8 {
    (48 + d) as u8
}

/// The decimal text of `n`, without leading zeros ("0" for zero).
pub open spec fn decimal(n: nat) -> Seq<u8>
    decreases n,
{
    if n < 10 {
        seq![digit(n)]
    } else {
        decimal(n / 10).push(digit(n % 10))
    }
}

/// The text that opens a plain (P3) image: magic, size, and the largest channel value.
pub open spec fn header_text(width: nat, height: nat) -> Seq<u8> {
    seq![80u8, 51u8, 10u8] + decimal(width) + seq![32u8] + decimal(height) + seq![
        10u8,
        50u8,
        53u8,
        53u8,
        10u8,
    ]
}

/// One pixel as a line: red, green and blue in decimal, separated by spaces.
pub open spec fn pixel_text(p: (u8, u8, u8)) -> Seq<u8> {
    decimal(p.0 as nat) + seq![32u8] + decimal(p.1 as nat) + seq![32u8] + decimal(p.2 as nat)
        + seq![10u8]
}

/// The lines of all pixels, in the order given.
pub open spec fn pixels_text(ps: Seq<(u8, u8, u8)>) -> Seq<u8>
    decreases ps.len(),
{
    if ps.len() == 0 {
        Seq::empty()
    } else {
        pixels_text(ps.drop_last()) + pixel_text(ps.last())
    }
}

/// Appends the decimal text of `n`.
pub fn write_decimal(out: &mut Vec<u8>, n: u32)
    ensures
        final(out)@ == old(out)@ + decimal(n as nat),
    decreases n,
{
    if n >= 10 {
        write_decimal(out, n / 10);
    }
    let d: u8 = (n % 10) as u8;
    out.push(48u8 + d);
    assert(final(out)@ =~= old(out)@ + decimal(n as nat));
}

/// Appends the image header for the given size.
pub fn write_header(out: &mut Vec<u8>, width: u32, height: u32)
    ensures
        final(out)@ == old(out)@ + header_text(width as nat, height as nat),
{
    out.push(80u8);
    out.push(51u8);
    out.push(10u8);
    write_decimal(out, width);
    out.push(32u8);
    write_decimal(out, height);
    out.push(10u8);
    out.push(50u8);
    out.push(53u8);
    out.push(53u8);
    out.push(10u8);
    assert(final(out)@ =~= old(out)@ + header_text(width as nat, height as nat));
}

/// Appends one pixel line.
pub fn write_pixel(out: &mut Vec<u8>, r: u8, g: u8, b: u8)
    ensures
        final(out)@ == old(out)@ + pixel_text((r, g, b)),
{
    write_decimal(out, r as u32);
    out.push(32u8);
    write_decimal(out, g as u32);
    out.push(32u8);
    write_decimal(out, b as u32);
    out.push(10u8);
    assert(final(out)@ =~= old(out)@ + pixel_text((r, g, b)));
}

/// The whole image: the header, then each pixel line in row-major order.
pub fn encode_image(width: u32, height: u32, pixels: &Vec<(u8, u8, u8)>) -> (r: Vec<u8>)
    requires
        pixels@.len() == width as nat * height as nat,
    ensures
        r@ == header_text(width as nat, height as nat) + pixels_text(pixels@),
{
    let mut out: Vec<u8> = Vec::new();
    write_header(&mut out, width, height);
    let mut k: usize = 0;
    while k < pixels.len()
        invariant
            k <= pixels@.len(),
            out@ == header_text(width as nat, height as nat) + pixels_text(pixels@.take(k as int)),
        decreases pixels@.len() - k,
    {
        let (r, g, b) = pixels[k];
        write_pixel(&mut out, r, g, b);
        proof {
            let next = pixels@.take(k + 1);
            assert(next.drop_last() =~= pixels@.take(k as int));
            assert(next.last() == pixels@[k as int]);
        }
        k = k + 1;
    }
    assert(pixels@.take(k as int) =~= pixels@);
    out
}

} // verus!
