//! The picture of the window.
use vstd::prelude::*;

verus! {

/// A picture, four bytes to a pixel.
pub struct Icon {
    pub rgba: Vec<u8>,
    pub width: u32,
    pub height: u32,
}

/// A frame as it was decoded: the buffer it was decoded into, how much of the
/// buffer it takes, and its size.
pub struct Frame {
    pub buffer: Vec<u8>,
    pub used: usize,
    pub width: u32,
    pub height: u32,
}

/// What decoding a frame gave.
pub struct FrameView {
    pub buffer: Seq<u8>,
    pub used: nat,
    pub width: nat,
    pub height: nat,
}

impl View for Frame {
    type V = FrameView;

    open spec fn view(&self) -> FrameView {
        FrameView {
            buffer: self.buffer@,
            used: self.used as nat,
            width: self.width as nat,
            height: self.height as nat,
        }
    }
}

/// How many bytes the picture in a file takes once decoded, or what is wrong
/// with the file.
pub uninterp spec fn png_buffer_size(file: Seq<u8>) -> Result<nat, Seq<char>>;

/// The first frame of a file, decoded into a buffer, or what is wrong with it.
pub uninterp spec fn png_frame(file: Seq<u8>, buffer: Seq<u8>) -> Result<FrameView, Seq<char>>;

pub open spec fn size_view(r: Result<usize, String>) -> Result<nat, Seq<char>> {
    match r {
        Ok(size) => Ok(size as nat),
        Err(error) => Err(error@),
    }
}

pub open spec fn frame_view(r: Result<Frame, String>) -> Result<FrameView, Seq<char>> {
    match r {
        Ok(frame) => Ok(frame@),
        Err(error) => Err(error@),
    }
}

/// `png::Decoder::read_info` on the bytes of a file, then
/// `png::Reader::output_buffer_size`. What comes back depends on the bytes
/// alone; an error is handed over as its text.
#[verifier::external_body]
fn read_header(file: &Vec<u8>) -> (r: Result<usize, String>)
    ensures
        size_view(r) == png_buffer_size(file@),
{
    match png::Decoder::new(std::io::Cursor::new(file.as_slice())).read_info() {
        Ok(reader) => Ok(reader.output_buffer_size()),
        Err(error) => Err(error.to_string()),
    }
}

/// `png::Reader::next_frame` on the bytes of a file, into `buffer`. What comes
/// back depends on the bytes and on the buffer alone; an error is handed over
/// as its text.
#[verifier::external_body]
fn read_frame(file: &Vec<u8>, buffer: Vec<u8>) -> (r: Result<Frame, String>)
    ensures
        frame_view(r) == png_frame(file@, buffer@),
{
    let mut buffer = buffer;
    let decoder = png::Decoder::new(std::io::Cursor::new(file.as_slice()));
    match decoder.read_info().and_then(|mut reader| reader.next_frame(&mut buffer)) {
        Ok(info) => {
            let used = info.buffer_size();
            Ok(Frame { buffer, used, width: info.width, height: info.height })
        },
        Err(error) => Err(error.to_string()),
    }
}


/// What a window's picture is, given what decoding its file gave.
pub open spec fn icon_of(
    header: Result<nat, Seq<char>>,
    frame: Result<FrameView, Seq<char>>,
) -> Result<(Seq<u8>, nat, nat), Seq<char>> {
    match header {
        Err(error) => Err("failed to read window icon header: "@ + error),
        Ok(size) => match frame {
            Err(error) => Err("failed to decode window icon: "@ + error),
            Ok(decoded) => Ok(
                (
                    if decoded.used < decoded.buffer.len() {
                        decoded.buffer.take(decoded.used as int)
                    } else {
                        decoded.buffer
                    },
                    decoded.width,
                    decoded.height,
                ),
            ),
        },
    }
}

pub open spec fn icon_view(r: Result<Icon, String>) -> Result<(Seq<u8>, nat, nat), Seq<char>> {
    match r {
        Ok(icon) => Ok((icon.rgba@, icon.width as nat, icon.height as nat)),
        Err(error) => Err(error@),
    }
}

/// The picture a decoded frame makes: the part of its buffer that it takes.
pub fn icon_from(frame: Frame) -> (r: Icon)
    ensures
        r.rgba@ == if frame.used < frame.buffer@.len() {
            frame.buffer@.take(frame.used as int)
        } else {
            frame.buffer@
        },
        r.width == frame.width,
        r.height == frame.height,
{
    let mut rgba = frame.buffer;
    if frame.used < rgba.len() {
        rgba.truncate(frame.used);
    }
    Icon { rgba, width: frame.width, height: frame.height }
}

/// The picture in a file, or a line saying what is wrong with it: a bad
/// picture is no reason not to start.
pub fn load_window_icon(file: &Vec<u8>) -> (r: Result<Icon, String>)
    ensures
        icon_view(r) == icon_of(
            png_buffer_size(file@),
            png_frame(file@, Seq::new(png_buffer_size(file@)->Ok_0, |i: int| 0u8)),
        ),
{
    let size = match read_header(file) {
        Ok(size) => size,
        Err(error) => {
            return Err(crate::text::concat2("failed to read window icon header: ", error.as_str()));
        },
    };
    let buffer: Vec<u8> = vec![0u8; size];
    assert(buffer@ =~= Seq::new(size as nat, |i: int| 0u8));
    match read_frame(file, buffer) {
        Ok(frame) => Ok(icon_from(frame)),
        Err(error) => Err(crate::text::concat2("failed to decode window icon: ", error.as_str())),
    }
}

} // verus!
