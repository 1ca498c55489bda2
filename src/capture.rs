use vstd::prelude::*;

verus! {

/// The PNG file that image's encoder writes for an RGBA8 pixel buffer of the
/// given size, or the message of the error it returns.
pub uninterp spec fn png_encoding(rgba: Seq<u8>, width: u32, height: u32) -> Result<
    Seq<u8>,
    Seq<char>,
>;

/// The standard, padded base64 text of some bytes.
pub uninterp spec fn base64_of(bytes: Seq<u8>) -> Seq<char>;

/// The eight bytes that open every PNG file.
pub open spec fn png_signature() -> Seq<u8> {
    seq![137u8, 80u8, 78u8, 71u8, 13u8, 10u8, 26u8, 10u8]
}

/// Relies on image's `PngEncoder::write_image` with `ExtendedColorType::Rgba8`,
/// which asserts that the buffer holds four bytes per pixel, and on png's
/// encoder, which writes the PNG signature before anything else; the error
/// is kept as its `Display` text.
#[verifier::external_body]
fn encode_png(rgba: &Vec<u8>, width: u32, height: u32) -> (r: Result<Vec<u8>, String>)
    requires
        rgba@.len() == 4 * (width as int) * (height as int),
    ensures
        match r {
            Ok(png) => png_encoding(rgba@, width, height) == Ok::<Seq<u8>, Seq<char>>(png@),
            Err(e) => png_encoding(rgba@, width, height) == Err::<Seq<u8>, Seq<char>>(e@),
        },
        r is Ok ==> r->Ok_0@.len() >= 8 && r->Ok_0@.subrange(0, 8) == png_signature(),
{
    let mut png: Vec<u8> = Vec::new();
    let encoder = image::codecs::png::PngEncoder::new(&mut png);
    image::ImageEncoder::write_image(encoder, rgba, width, height, image::ExtendedColorType::Rgba8)
        .map(|_| png)
        .map_err(|e| e.to_string())
}

/// A character of the standard base64 alphabet (the padding `=` is not one).
pub open spec fn is_base64_digit(c: char) -> bool {
    ('A' <= c && c <= 'Z') || ('a' <= c && c <= 'z') || ('0' <= c && c <= '9') || c == '+' || c
        == '/'
}

/// How many `=` pad the base64 text of `n` bytes: none when `n` is a
/// multiple of three, else two for one byte left over and one for two.
pub open spec fn pad_len(n: nat) -> nat {
    if n % 3 == 0 {
        0
    } else {
        (3 - n % 3) as nat
    }
}

/// Padded base64 text of `n` bytes: four characters for each started group
/// of three bytes, alphabet characters first, then exactly `pad_len(n)`
/// characters `=` at the end.
pub open spec fn is_padded_base64(t: Seq<char>, n: nat) -> bool {
    &&& t.len() == 4 * ((n + 2) / 3)
    &&& forall|i: int| 0 <= i < t.len() - pad_len(n) ==> is_base64_digit(#[trigger] t[i])
    &&& forall|i: int| t.len() - pad_len(n) <= i < t.len() ==> #[trigger] t[i] == '='
}

/// Relies on base64's `STANDARD` engine `encode`: the standard alphabet,
/// four characters for each started group of three bytes, padded with `=`.
#[verifier::external_body]
fn to_base64(bytes: &Vec<u8>) -> (r: String)
    ensures
        r@ == base64_of(bytes@),
        is_padded_base64(r@, bytes@.len()),
{
    base64::Engine::encode(&base64::engine::general_purpose::STANDARD, bytes)
}

/// The message of a failed PNG encoding.
pub open spec fn encode_failure(e: Seq<char>) -> Seq<char> {
    "Failed to encode to PNG: "@ + e
}

/// What a capture becomes once the PNG encoder has answered: the base64 text
/// of the PNG file, or the encoder's error under a prefix.
pub open spec fn png_outcome(png: Result<Seq<u8>, Seq<char>>) -> Result<Seq<char>, Seq<char>> {
    match png {
        Ok(file) => Ok(base64_of(file)),
        Err(e) => Err(encode_failure(e)),
    }
}

/// A text result as plain text.
pub open spec fn text_result_view(r: Result<String, String>) -> Result<Seq<char>, Seq<char>> {
    match r {
        Ok(s) => Ok(s@),
        Err(e) => Err(e@),
    }
}

/// A byte result as plain values.
pub open spec fn bytes_result_view(r: Result<Vec<u8>, String>) -> Result<Seq<u8>, Seq<char>> {
    match r {
        Ok(b) => Ok(b@),
        Err(e) => Err(e@),
    }
}

/// Given what the PNG encoder returned, the text handed to the interface.
pub fn png_to_base64(png: Result<Vec<u8>, String>) -> (r: Result<String, String>)
    ensures
        text_result_view(r) == png_outcome(bytes_result_view(png)),
        png is Ok ==> is_padded_base64(r->Ok_0@, png->Ok_0@.len()),
{
    match png {
        Ok(file) => Ok(to_base64(&file)),
        Err(e) => {
            let mut m = "Failed to encode to PNG: ".to_owned();
            m.append(e.as_str());
            Err(m)
        },
    }
}

/// The index of the first monitor marked primary, or the error that none is.
pub fn primary_monitor(is_primary: &Vec<bool>) -> (r: Result<usize, String>)
    ensures
        match r {
            Ok(k) => k < is_primary@.len() && is_primary@[k as int] && forall|j: int|
                0 <= j < k ==> !is_primary@[j],
            Err(e) => e@ == no_primary_message() && forall|j: int|
                0 <= j < is_primary@.len() ==> !is_primary@[j],
        },
{
    let mut i: usize = 0;
    while i < is_primary.len()
        invariant
            i <= is_primary@.len(),
            forall|j: int| 0 <= j < i ==> !is_primary@[j],
        decreases is_primary@.len() - i,
    {
        if is_primary[i] {
            return Ok(i);
        }
        i = i + 1;
    }
    Err("No primary monitor found".to_owned())
}

/// The error when no monitor is the primary one.
pub open spec fn no_primary_message() -> Seq<char> {
    "No primary monitor found"@
}

/// Encodes a captured RGBA8 image of the given size as PNG, then as base64
/// text; successful text is padded base64 of a PNG file, so never empty.
pub fn encode_capture(rgba: &Vec<u8>, width: u32, height: u32) -> (r: Result<String, String>)
    requires
        rgba@.len() == 4 * (width as int) * (height as int),
    ensures
        text_result_view(r) == png_outcome(png_encoding(rgba@, width, height)),
        r is Ok ==> r->Ok_0@.len() >= 12 && exists|file: Seq<u8>|
            png_encoding(rgba@, width, height) == Ok::<Seq<u8>, Seq<char>>(file)
                && file.subrange(0, 8) == png_signature()
                && is_padded_base64(r->Ok_0@, file.len()),
{
    let png = encode_png(rgba, width, height);
    let ghost file = png;
    let r = png_to_base64(png);
    proof {
        if r is Ok {
            assert(file is Ok);
            let f = file->Ok_0@;
            assert(f.len() >= 8);
            assert(4 * ((f.len() + 2) / 3) >= 12);
            assert(png_encoding(rgba@, width, height) == Ok::<Seq<u8>, Seq<char>>(f));
        }
    }
    r
}

/// The error when the monitors cannot be listed.
pub open spec fn monitors_failure(e: Seq<char>) -> Seq<char> {
    "Failed to get monitors: "@ + e
}

/// The error when the chosen monitor cannot be captured.
pub open spec fn capture_failure(e: Seq<char>) -> Seq<char> {
    "Failed to capture image: "@ + e
}

/// Given what listing the monitors returned (whether each is the primary
/// one, or the error), the index of the monitor to capture: the first
/// primary one.
pub fn select_monitor(monitors: Result<Vec<bool>, String>) -> (r: Result<usize, String>)
    ensures
        match monitors {
            Err(e) => r matches Err(m) && m@ == monitors_failure(e@),
            Ok(v) => match r {
                Ok(k) => k < v@.len() && v@[k as int] && forall|j: int| 0 <= j < k ==> !v@[j],
                Err(m) => m@ == no_primary_message() && forall|j: int|
                    0 <= j < v@.len() ==> !v@[j],
            },
        },
{
    match monitors {
        Err(e) => {
            let mut m = "Failed to get monitors: ".to_owned();
            m.append(e.as_str());
            Err(m)
        },
        Ok(v) => primary_monitor(&v),
    }
}

/// Given what capturing the chosen monitor returned (RGBA8 pixels with
/// width and height, or the error), the base64 PNG text of the image.
pub fn capture_to_base64(captured: Result<(Vec<u8>, u32, u32), String>) -> (r: Result<
    String,
    String,
>)
    requires
        captured matches Ok((rgba, width, height)) ==> rgba@.len() == 4 * (width as int) * (
        height as int),
    ensures
        match captured {
            Err(e) => r matches Err(m) && m@ == capture_failure(e@),
            Ok((rgba, width, height)) => {
                &&& text_result_view(r) == png_outcome(png_encoding(rgba@, width, height))
                &&& r is Ok ==> r->Ok_0@.len() >= 12 && exists|file: Seq<u8>|
                    png_encoding(rgba@, width, height) == Ok::<Seq<u8>, Seq<char>>(file)
                        && file.subrange(0, 8) == png_signature()
                        && is_padded_base64(r->Ok_0@, file.len())
            },
        },
{
    match captured {
        Err(e) => {
            let mut m = "Failed to capture image: ".to_owned();
            m.append(e.as_str());
            Err(m)
        },
        Ok((rgba, width, height)) => encode_capture(&rgba, width, height),
    }
}

} // verus!
