//! CarpGraph: a drawing format made of a header and a series of commands
//! that a renderer replays to reconstruct an image.
//!
//! Starting at the beginning of the file, the header details specific
//! information about the file:
//!
//! 1. `CG` tag (2 bytes)
//! 2. version number (2 bytes)
//! 3. width of graph (4 bytes)
//! 4. height of graph (4 bytes)
//! 5. `END_OF_HEADER`
//!
//! Everything after `END_OF_HEADER` is a command and its parameters, and the
//! file ends with `EOF`.
use vstd::prelude::*;
use crate::text::{decimal, push_all, push_decimal, push_str, string_from_utf8, string_of};

verus! {

/// Marks the end of the header.
pub const END_OF_HEADER: u8 = 0x1a;
/// Marks the beginning of a hex-encoded color **string** (6 bytes, no `#`).
pub const COLOR: u8 = 0x1b;
/// Marks the beginning of a 2-byte big-endian brush size.
pub const SIZE: u8 = 0x2b;
/// Marks the beginning of a new line.
pub const LINE: u8 = 0x3b;
/// Marks a point: two big-endian `u32`s (8 bytes), relative to `(0, 0)`,
/// drawn with the size and color of the previous `SIZE` and `COLOR`.
pub const POINT: u8 = 0x4b;
/// An end-of-file marker.
pub const EOF: u8 = 0x1f;

/// A type of [`Command`].
#[derive(Clone, Copy, Debug, PartialEq, Eq, Structural)]
pub enum CommandType {
    /// [`END_OF_HEADER`]
    EndOfHeader,
    /// [`COLOR`]
    Color,
    /// [`SIZE`]
    Size,
    /// [`LINE`]
    Line,
    /// [`POINT`]
    Point,
    /// [`EOF`]
    Eof,
}

/// The marker byte of a command type.
pub open spec fn type_byte(t: CommandType) -> u8 {
    match t {
        CommandType::EndOfHeader => END_OF_HEADER,
        CommandType::Color => COLOR,
        CommandType::Size => SIZE,
        CommandType::Line => LINE,
        CommandType::Point => POINT,
        CommandType::Eof => EOF,
    }
}

/// Whether `b` is one of the marker bytes.
pub open spec fn is_marker(b: u8) -> bool {
    b == END_OF_HEADER || b == COLOR || b == SIZE || b == LINE || b == POINT || b == EOF
}

impl CommandType {
    /// The marker byte of this command type.
    pub fn byte(&self) -> (r: u8)
        ensures
            r == type_byte(*self),
    {
        match self {
            CommandType::EndOfHeader => END_OF_HEADER,
            CommandType::Color => COLOR,
            CommandType::Size => SIZE,
            CommandType::Line => LINE,
            CommandType::Point => POINT,
            CommandType::Eof => EOF,
        }
    }
}

/// One drawing command.
#[derive(Debug)]
pub struct Command {
    /// The type of the command.
    pub kind: CommandType,
    /// Raw data as bytes.
    pub data: Vec<u8>,
}

impl View for Command {
    type V = (CommandType, Seq<u8>);

    open spec fn view(&self) -> (CommandType, Seq<u8>) {
        (self.kind, self.data@)
    }
}

impl Command {
    /// The command as bytes: its marker, then its data.
    pub fn into_bytes(self) -> (r: Vec<u8>)
        ensures
            r@ == seq![type_byte(self.kind)] + self.data@,
    {
        let mut d = self.data;
        d.insert(0, self.kind.byte());
        assert(d@ =~= seq![type_byte(self.kind)] + self.data@);
        d
    }
}

/// A graph is CarpGraph's representation of an image. It's essentially just a
/// reproducable series of commands which a renderer can traverse to
/// reconstruct an image.
#[derive(Debug)]
pub struct Graph {
    pub header: Vec<u8>,
    pub dimensions: (u32, u32),
    pub commands: Vec<Command>,
}

/// The abstract content of a graph: header bytes, dimensions and commands.
pub struct GraphModel {
    pub header: Seq<u8>,
    pub dimensions: (u32, u32),
    pub commands: Seq<(CommandType, Seq<u8>)>,
}

impl View for Graph {
    type V = GraphModel;

    open spec fn view(&self) -> GraphModel {
        GraphModel {
            header: self.header@,
            dimensions: self.dimensions,
            commands: self.commands@.map_values(|c: Command| c@),
        }
    }
}

/// A simple carpgraph renderer.
pub trait CarpGraph: Sized {
    /// Whether `bytes` can be deserialized.
    spec fn can_decode(bytes: Seq<u8>) -> bool;

    /// Whether the image can be converted to svg format.
    spec fn can_render(&self) -> bool;

    /// Serialize an image to bytes.
    fn to_bytes(&self) -> Vec<u8>;

    /// Deserialize an image from bytes.
    fn from_bytes(bytes: Vec<u8>) -> Self
        requires
            Self::can_decode(bytes@),
    ;

    /// Convert an image to svg format.
    fn to_svg(&self) -> String
        requires
            self.can_render(),
    ;
}

/// Errors of the CarpGraph format.
#[derive(Debug)]
pub enum Error {
    DeserializeError(String),
    Custom(String),
}

/// The big-endian bytes of `x`.
pub open spec fn u32_be(x: u32) -> Seq<u8> {
    seq![(x >> 24u32) as u8, (x >> 16u32) as u8, (x >> 8u32) as u8, x as u8]
}

/// The `u32` whose big-endian bytes are `b[0..4]`.
pub open spec fn be_u32(b0: u8, b1: u8, b2: u8, b3: u8) -> u32 {
    ((b0 as u32) << 24u32) | ((b1 as u32) << 16u32) | ((b2 as u32) << 8u32) | (b3 as u32)
}

/// The `u16` whose big-endian bytes are `b0, b1`.
pub open spec fn be_u16(b0: u8, b1: u8) -> u16 {
    ((b0 as u16) << 8u16) | (b1 as u16)
}

/// The bytes of a sequence of commands, one after another.
pub open spec fn commands_bytes(cs: Seq<(CommandType, Seq<u8>)>) -> Seq<u8>
    decreases cs.len(),
{
    if cs.len() == 0 {
        Seq::empty()
    } else {
        seq![type_byte(cs[0].0)] + cs[0].1 + commands_bytes(cs.subrange(1, cs.len() as int))
    }
}

/// The serialised form of a graph.
pub open spec fn graph_bytes(g: GraphModel) -> Seq<u8> {
    g.header + u32_be(g.dimensions.0) + u32_be(g.dimensions.1) + seq![END_OF_HEADER]
        + commands_bytes(g.commands) + seq![EOF]
}

/// The state of the decoder between bytes.
pub struct DecodeState {
    pub header: Seq<u8>,
    pub dimensions: (u32, u32),
    pub commands: Seq<(CommandType, Seq<u8>)>,
    pub in_header: bool,
    pub buffer: Seq<u8>,
}

/// The data of a command whose marker is at `i`: the next `count` bytes, or
/// as many as remain.
pub open spec fn take_data(bytes: Seq<u8>, i: int, count: int) -> Seq<u8> {
    if i + 1 + count <= bytes.len() {
        bytes.subrange(i + 1, i + 1 + count)
    } else {
        bytes.subrange(i + 1, bytes.len() as int)
    }
}

/// Decodes `bytes` from position `i` on, in state `st`. `None` where the
/// decoder would fail: a width or height would be read from fewer than 4
/// buffered bytes.
pub open spec fn decode_from(bytes: Seq<u8>, i: int, st: DecodeState) -> Option<DecodeState>
    decreases bytes.len() - i,
{
    if i < 0 || i >= bytes.len() {
        Some(st)
    } else {
        let b = bytes[i];
        if b == END_OF_HEADER {
            decode_from(bytes, i + 1, DecodeState { in_header: false, ..st })
        } else if b == COLOR || b == SIZE || b == POINT {
            let (t, count) = if b == COLOR {
                (CommandType::Color, 6int)
            } else if b == SIZE {
                (CommandType::Size, 2int)
            } else {
                (CommandType::Point, 8int)
            };
            let data = take_data(bytes, i, count);
            decode_from(
                bytes,
                i + 1 + data.len(),
                DecodeState { commands: st.commands.push((t, data)), ..st },
            )
        } else if b == LINE {
            decode_from(
                bytes,
                i + 1,
                DecodeState { commands: st.commands.push((CommandType::Line, Seq::empty())), ..st },
            )
        } else if b == EOF {
            Some(st)
        } else if !st.in_header || i >= 12 {
            decode_from(bytes, i + 1, st)
        } else if i < 4 {
            decode_from(bytes, i + 1, DecodeState { header: st.header.push(b), ..st })
        } else {
            let buf = st.buffer.push(b);
            if i == 7 || i == 11 {
                if buf.len() < 4 {
                    None
                } else {
                    let v = be_u32(buf[0], buf[1], buf[2], buf[3]);
                    let dims = if i == 7 { (v, st.dimensions.1) } else { (st.dimensions.0, v) };
                    decode_from(bytes, i + 1, DecodeState { dimensions: dims, buffer: Seq::empty(), ..st })
                }
            } else {
                decode_from(bytes, i + 1, DecodeState { buffer: buf, ..st })
            }
        }
    }
}

/// The decoder's starting state.
pub open spec fn initial_state() -> DecodeState {
    DecodeState {
        header: Seq::empty(),
        dimensions: (0, 0),
        commands: Seq::empty(),
        in_header: true,
        buffer: Seq::empty(),
    }
}

/// The graph that `bytes` decode to, if decoding does not fail.
pub open spec fn decode(bytes: Seq<u8>) -> Option<GraphModel> {
    match decode_from(bytes, 0, initial_state()) {
        Some(st) => Some(GraphModel { header: st.header, dimensions: st.dimensions, commands: st.commands }),
        None => None,
    }
}

/// Whether `g` is a graph that the byte format carries exactly: a 4-byte
/// header, header and dimension bytes that are not markers, and commands of
/// the drawing kinds with data of their exact lengths.
pub open spec fn well_formed(g: GraphModel) -> bool {
    &&& g.header.len() == 4
    &&& forall|k: int| 0 <= k < 4 ==> !is_marker(#[trigger] g.header[k])
    &&& forall|k: int| 0 <= k < 4 ==> !is_marker(#[trigger] u32_be(g.dimensions.0)[k])
    &&& forall|k: int| 0 <= k < 4 ==> !is_marker(#[trigger] u32_be(g.dimensions.1)[k])
    &&& forall|k: int| 0 <= k < g.commands.len() ==> command_well_formed(#[trigger] g.commands[k])
}

/// Whether a command is of a drawing kind with data of its exact length.
pub open spec fn command_well_formed(c: (CommandType, Seq<u8>)) -> bool {
    match c.0 {
        CommandType::Color => c.1.len() == 6,
        CommandType::Size => c.1.len() == 2,
        CommandType::Point => c.1.len() == 8,
        CommandType::Line => c.1.len() == 0,
        _ => false,
    }
}

/// Whether every command can be rendered: no header or end-of-file markers,
/// sizes of at least 2 bytes and points of exactly 8.
pub open spec fn renderable(cs: Seq<(CommandType, Seq<u8>)>) -> bool {
    forall|k: int| 0 <= k < cs.len() ==> command_renderable(#[trigger] cs[k])
}

/// Whether one command can be rendered.
pub open spec fn command_renderable(c: (CommandType, Seq<u8>)) -> bool {
    match c.0 {
        CommandType::Size => c.1.len() >= 2,
        CommandType::Point => c.1.len() == 8,
        CommandType::Color | CommandType::Line => true,
        _ => false,
    }
}

/// The state of the SVG renderer between commands.
pub struct SvgState {
    pub out: Seq<char>,
    pub size: u16,
    pub color: Seq<char>,
    pub previous: Option<(u32, u32)>,
    pub path: Seq<char>,
}

/// The `<path>` element for a line.
pub open spec fn path_element(path: Seq<char>, color: Seq<char>, size: u16) -> Seq<char> {
    "<path d=\""@ + path + "\" stroke=\"#"@ + color + "\" stroke-width=\""@ + decimal(size as nat)
        + "\" />"@
}

/// The state after rendering one command.
pub open spec fn svg_step(st: SvgState, c: (CommandType, Seq<u8>)) -> SvgState {
    match c.0 {
        CommandType::Size => SvgState { size: be_u16(c.1[0], c.1[1]), ..st },
        CommandType::Color => SvgState {
            color: if vstd::utf8::valid_utf8(c.1) { vstd::utf8::decode_utf8(c.1) } else { "#000000"@ },
            ..st
        },
        CommandType::Line => SvgState {
            out: if st.path.len() > 0 { st.out + path_element(st.path, st.color, st.size) } else { st.out },
            previous: None,
            path: Seq::empty(),
            ..st
        },
        _ => {
            let x = be_u32(c.1[0], c.1[1], c.1[2], c.1[3]);
            let y = be_u32(c.1[4], c.1[5], c.1[6], c.1[7]);
            SvgState {
                path: st.path + " M"@ + decimal(x as nat) + " "@ + decimal(y as nat) + match st.previous {
                    Some(p) => " L"@ + decimal(p.0 as nat) + " "@ + decimal(p.1 as nat),
                    None => Seq::<char>::empty(),
                },
                previous: Some((x, y)),
                out: st.out + "<circle cx=\""@ + decimal(x as nat) + "\" cy=\""@ + decimal(y as nat)
                    + "\" r=\""@ + decimal((st.size / 2) as nat) + "\" fill=\"#"@ + st.color + "\" />"@,
                ..st
            }
        },
    }
}

/// A LINE command ends the stroke: it leaves no previous point and an empty
/// path, so the next POINT starts a new stroke whose path piece is exactly
/// ` M x y`, with no ` L` back to the earlier stroke; a POINT that follows
/// a POINT is joined to it with ` L`.
pub proof fn law_line_ends_the_stroke(st: SvgState, line: Seq<u8>, p: Seq<u8>, q: Seq<u8>)
    requires
        p.len() == 8,
        q.len() == 8,
    ensures
        ({
            let ended = svg_step(st, (CommandType::Line, line));
            let x = be_u32(p[0], p[1], p[2], p[3]);
            let y = be_u32(p[4], p[5], p[6], p[7]);
            &&& ended.previous is None
            &&& ended.path.len() == 0
            &&& svg_step(ended, (CommandType::Point, p)).path == " M"@ + decimal(x as nat) + " "@ + decimal(y as nat)
            &&& svg_step(ended, (CommandType::Point, p)).previous == Some((x, y))
        }),
        ({
            let first = svg_step(st, (CommandType::Point, p));
            let x = be_u32(p[0], p[1], p[2], p[3]);
            let y = be_u32(p[4], p[5], p[6], p[7]);
            let u = be_u32(q[0], q[1], q[2], q[3]);
            let v = be_u32(q[4], q[5], q[6], q[7]);
            svg_step(first, (CommandType::Point, q)).path == first.path + " M"@ + decimal(u as nat) + " "@
                + decimal(v as nat) + " L"@ + decimal(x as nat) + " "@ + decimal(y as nat)
        }),
{
    let ended = svg_step(st, (CommandType::Line, line));
    assert(ended.path + " M"@ + decimal(be_u32(p[0], p[1], p[2], p[3]) as nat) + " "@ + decimal(be_u32(p[4], p[5], p[6], p[7]) as nat)
        + Seq::<char>::empty() =~= " M"@ + decimal(be_u32(p[0], p[1], p[2], p[3]) as nat) + " "@ + decimal(be_u32(p[4], p[5], p[6], p[7]) as nat));
}

/// The state after rendering the first `n` commands of `cs` from `st`.
pub open spec fn svg_steps(st: SvgState, cs: Seq<(CommandType, Seq<u8>)>, n: int) -> SvgState
    decreases n,
{
    if n <= 0 {
        st
    } else {
        svg_step(svg_steps(st, cs, n - 1), cs[n - 1])
    }
}

/// The opening `<svg>` tag for a graph of the given dimensions.
pub open spec fn svg_open(w: u32, h: u32) -> Seq<char> {
    "<svg viewBox=\"0 0 "@ + decimal(w as nat) + " "@ + decimal(h as nat)
        + "\" xmlns=\"http://www.w3.org/2000/svg\" style=\"background: white; width: "@
        + decimal(w as nat) + "px; height: "@ + decimal(h as nat) + "px\" class=\"carpgraph\">"@
}

/// The SVG document for a graph.
pub open spec fn svg_of(g: GraphModel) -> Seq<char> {
    let st0 = SvgState {
        out: svg_open(g.dimensions.0, g.dimensions.1),
        size: 2,
        color: "000000"@,
        previous: None,
        path: Seq::empty(),
    };
    let st = svg_steps(st0, g.commands, g.commands.len() as int);
    (if st.path.len() > 0 { st.out + path_element(st.path, st.color, st.size) } else { st.out })
        + "</svg>"@
}

fn push_u32_be(out: &mut Vec<u8>, x: u32)
    ensures
        final(out)@ == old(out)@ + u32_be(x),
{
    out.push((x >> 24u32) as u8);
    out.push((x >> 16u32) as u8);
    out.push((x >> 8u32) as u8);
    out.push(x as u8);
    assert(final(out)@ =~= old(out)@ + u32_be(x));
}

fn push_bytes(out: &mut Vec<u8>, src: &Vec<u8>)
    ensures
        final(out)@ == old(out)@ + src@,
{
    let mut i: usize = 0;
    while i < src.len()
        invariant
            i <= src.len(),
            out@ == old(out)@ + src@.subrange(0, i as int),
        decreases src.len() - i,
    {
        out.push(src[i]);
        i = i + 1;
        assert(out@ =~= old(out)@ + src@.subrange(0, i as int));
    }
    assert(src@.subrange(0, src.len() as int) =~= src@);
}

fn read_be_u32(b0: u8, b1: u8, b2: u8, b3: u8) -> (r: u32)
    ensures
        r == be_u32(b0, b1, b2, b3),
{
    ((b0 as u32) << 24u32) | ((b1 as u32) << 16u32) | ((b2 as u32) << 8u32) | (b3 as u32)
}

proof fn lemma_be_roundtrip(x: u32)
    ensures
        be_u32((x >> 24u32) as u8, (x >> 16u32) as u8, (x >> 8u32) as u8, x as u8) == x,
{
    assert((((((x >> 24u32) as u8) as u32) << 24u32) | ((((x >> 16u32) as u8) as u32) << 16u32)
        | ((((x >> 8u32) as u8) as u32) << 8u32) | ((x as u8) as u32)) == x) by (bit_vector);
}


proof fn lemma_commands_decode(bytes: Seq<u8>, p: int, st: DecodeState, cs: Seq<(CommandType, Seq<u8>)>)
    requires
        !st.in_header,
        0 <= p,
        p + commands_bytes(cs).len() + 1 <= bytes.len(),
        bytes.subrange(p, p + commands_bytes(cs).len() + 1) == commands_bytes(cs) + seq![EOF],
        forall|k: int| 0 <= k < cs.len() ==> command_well_formed(#[trigger] cs[k]),
    ensures
        decode_from(bytes, p, st) == Some(DecodeState { commands: st.commands + cs, ..st }),
    decreases cs.len(),
{
    let cb = commands_bytes(cs);
    assert(bytes[p] == (cb + seq![EOF])[0]) by {
        assert(bytes.subrange(p, p + cb.len() + 1)[0] == bytes[p]);
    }
    if cs.len() == 0 {
        assert(st.commands + cs =~= st.commands);
        assert(bytes[p] == EOF);
    } else {
        let c = cs[0];
        let rest = cs.subrange(1, cs.len() as int);
        assert(command_well_formed(cs[0]));
        let n = c.1.len() as int;
        assert(cb =~= seq![type_byte(c.0)] + c.1 + commands_bytes(rest));
        assert(bytes[p] == type_byte(c.0));
        assert(bytes.subrange(p + 1, p + 1 + n) =~= c.1) by {
            assert forall|k: int| 0 <= k < n implies bytes.subrange(p + 1, p + 1 + n)[k] == c.1[k] by {
                assert(bytes.subrange(p, p + cb.len() + 1)[1 + k] == bytes[p + 1 + k]);
                assert((cb + seq![EOF])[1 + k] == c.1[k]);
            }
        }
        let p2 = p + 1 + n;
        assert(bytes.subrange(p2, p2 + commands_bytes(rest).len() + 1) =~= commands_bytes(rest) + seq![EOF]) by {
            assert forall|k: int| 0 <= k < commands_bytes(rest).len() + 1 implies
                bytes.subrange(p2, p2 + commands_bytes(rest).len() + 1)[k]
                    == (commands_bytes(rest) + seq![EOF])[k] by {
                assert(bytes.subrange(p, p + cb.len() + 1)[1 + n + k] == bytes[p2 + k]);
                assert((cb + seq![EOF])[1 + n + k] == (commands_bytes(rest) + seq![EOF])[k]);
            }
        }
        assert forall|k: int| 0 <= k < rest.len() implies command_well_formed(#[trigger] rest[k]) by {
            assert(command_well_formed(cs[k + 1]));
        }
        let st2 = DecodeState { commands: st.commands.push(c), ..st };
        lemma_commands_decode(bytes, p2, st2, rest);
        assert(st2.commands + rest =~= st.commands + cs);
        if c.0 == CommandType::Line {
            assert(c.1 =~= Seq::<u8>::empty());
        } else {
            assert(take_data(bytes, p, n) =~= c.1);
        }
    }
}

/// Decoding the bytes of a well-formed graph gives back that graph.
pub proof fn law_bytes_roundtrip(g: GraphModel)
    requires
        well_formed(g),
    ensures
        decode(graph_bytes(g)) == Some(g),
{
    let b = graph_bytes(g);
    let w = u32_be(g.dimensions.0);
    let h = u32_be(g.dimensions.1);
    let cb = commands_bytes(g.commands);
    assert(b =~= g.header + w + h + seq![END_OF_HEADER] + cb + seq![EOF]);
    assert forall|k: int| 0 <= k < 4 implies b[k] == g.header[k] && b[4 + k] == w[k] && b[8 + k] == h[k] by {}
    assert(b[12] == END_OF_HEADER);
    assert(!is_marker(g.header[0]) && !is_marker(g.header[1]) && !is_marker(g.header[2]) && !is_marker(g.header[3]));
    assert(!is_marker(w[0]) && !is_marker(w[1]) && !is_marker(w[2]) && !is_marker(w[3]));
    assert(!is_marker(h[0]) && !is_marker(h[1]) && !is_marker(h[2]) && !is_marker(h[3]));
    lemma_be_roundtrip(g.dimensions.0);
    lemma_be_roundtrip(g.dimensions.1);
    let e = Seq::<u8>::empty();
    let s0 = initial_state();
    let s1 = DecodeState { header: e.push(b[0]), ..s0 };
    let s2 = DecodeState { header: s1.header.push(b[1]), ..s0 };
    let s3 = DecodeState { header: s2.header.push(b[2]), ..s0 };
    let s4 = DecodeState { header: s3.header.push(b[3]), ..s0 };
    assert(s4.header =~= g.header);
    let s5 = DecodeState { buffer: e.push(b[4]), ..s4 };
    let s6 = DecodeState { buffer: s5.buffer.push(b[5]), ..s4 };
    let s7 = DecodeState { buffer: s6.buffer.push(b[6]), ..s4 };
    let s8 = DecodeState { dimensions: (g.dimensions.0, 0), ..s4 };
    let s9 = DecodeState { buffer: e.push(b[8]), ..s8 };
    let s10 = DecodeState { buffer: s9.buffer.push(b[9]), ..s8 };
    let s11 = DecodeState { buffer: s10.buffer.push(b[10]), ..s8 };
    let s12 = DecodeState { dimensions: g.dimensions, ..s8 };
    let s13 = DecodeState { in_header: false, ..s12 };
    assert(decode_from(b, 0, s0) == decode_from(b, 1, s1));
    assert(decode_from(b, 1, s1) == decode_from(b, 2, s2));
    assert(decode_from(b, 2, s2) == decode_from(b, 3, s3));
    assert(decode_from(b, 3, s3) == decode_from(b, 4, s4));
    assert(decode_from(b, 4, s4) == decode_from(b, 5, s5));
    assert(decode_from(b, 5, s5) == decode_from(b, 6, s6));
    assert(decode_from(b, 6, s6) == decode_from(b, 7, s7));
    assert(s7.buffer.push(b[7]) =~= w);
    assert(decode_from(b, 7, s7) == decode_from(b, 8, s8));
    assert(decode_from(b, 8, s8) == decode_from(b, 9, s9));
    assert(decode_from(b, 9, s9) == decode_from(b, 10, s10));
    assert(decode_from(b, 10, s10) == decode_from(b, 11, s11));
    assert(s11.buffer.push(b[11]) =~= h);
    assert(decode_from(b, 11, s11) == decode_from(b, 12, s12));
    assert(decode_from(b, 12, s12) == decode_from(b, 13, s13));
    assert(b.subrange(13, 13 + cb.len() + 1 as int) =~= cb + seq![EOF]);
    lemma_commands_decode(b, 13, s13, g.commands);
    assert(s13.commands + g.commands =~= g.commands);
}

impl Graph {
    /// Serialize the graph to bytes: header, width, height,
    /// `END_OF_HEADER`, every command, `EOF`.
    pub fn to_bytes(&self) -> (r: Vec<u8>)
        ensures
            r@ == graph_bytes(self@),
    {
        let mut out: Vec<u8> = Vec::new();
        push_bytes(&mut out, &self.header);
        push_u32_be(&mut out, self.dimensions.0);
        push_u32_be(&mut out, self.dimensions.1);
        out.push(END_OF_HEADER);
        let ghost prefix = out@;
        let ghost cs = self@.commands;
        let mut i: usize = 0;
        assert(cs.subrange(0, cs.len() as int) =~= cs);
        while i < self.commands.len()
            invariant
                cs == self@.commands,
                cs.len() == self.commands.len(),
                i <= self.commands.len(),
                out@ + commands_bytes(cs.subrange(i as int, cs.len() as int)) == prefix + commands_bytes(cs),
            decreases self.commands.len() - i,
        {
            let ghost rest = cs.subrange(i as int, cs.len() as int);
            assert(rest[0] == self.commands@[i as int]@);
            assert(rest.subrange(1, rest.len() as int) =~= cs.subrange(i + 1, cs.len() as int));
            let ghost before = out@;
            out.push(self.commands[i].kind.byte());
            push_bytes(&mut out, &self.commands[i].data);
            assert(out@ + commands_bytes(cs.subrange(i + 1, cs.len() as int)) =~= before + commands_bytes(rest));
            i = i + 1;
        }
        assert(cs.subrange(cs.len() as int, cs.len() as int) =~= Seq::<(CommandType, Seq<u8>)>::empty());
        out.push(EOF);
        assert(out@ =~= graph_bytes(self@));
        out
    }

    /// Deserialize a graph from bytes.
    pub fn from_bytes(bytes: Vec<u8>) -> (r: Graph)
        requires
            decode(bytes@) is Some,
        ensures
            decode(bytes@) == Some(r@),
    {
        match Graph::decode_bytes(bytes) {
            Some(g) => g,
            None => {
                proof {
                    assert(false);
                }
                Graph { header: Vec::new(), dimensions: (0, 0), commands: Vec::new() }
            },
        }
    }

    /// Deserialize a graph from bytes: `None` where a width or height would
    /// be read from fewer than four bytes.
    pub fn decode_bytes(bytes: Vec<u8>) -> (r: Option<Graph>)
        ensures
            match r {
                Some(g) => decode(bytes@) == Some(g@),
                None => decode(bytes@) is None,
            },
    {
        let mut header: Vec<u8> = Vec::new();
        let mut dimensions: (u32, u32) = (0, 0);
        let mut commands: Vec<Command> = Vec::new();
        let mut in_header: bool = true;
        let mut buffer: Vec<u8> = Vec::new();
        let mut i: usize = 0;
        let n = bytes.len();
        assert(commands@.map_values(|c: Command| c@) =~= Seq::<(CommandType, Seq<u8>)>::empty());
        while i < n
            invariant
                n == bytes.len(),
                i <= n,
                decode_from(bytes@, i as int, DecodeState {
                    header: header@,
                    dimensions,
                    commands: commands@.map_values(|c: Command| c@),
                    in_header,
                    buffer: buffer@,
                }) == decode_from(bytes@, 0, initial_state()),
            decreases n - i,
        {
            let ghost st = DecodeState {
                header: header@,
                dimensions,
                commands: commands@.map_values(|c: Command| c@),
                in_header,
                buffer: buffer@,
            };
            let b = bytes[i];
            if b == END_OF_HEADER {
                in_header = false;
                i = i + 1;
            } else if b == COLOR || b == SIZE || b == POINT {
                let (kind, count) = if b == COLOR {
                    (CommandType::Color, 6usize)
                } else if b == SIZE {
                    (CommandType::Size, 2usize)
                } else {
                    (CommandType::Point, 8usize)
                };
                let mut data: Vec<u8> = Vec::new();
                let mut j: usize = i + 1;
                while j < n && data.len() < count
                    invariant
                        n == bytes.len(),
                        i < n,
                        i + 1 <= j <= n,
                        count <= 8,
                        data.len() == j - (i + 1),
                        data.len() <= count,
                        data@ == bytes@.subrange(i + 1, j as int),
                    decreases n - j,
                {
                    data.push(bytes[j]);
                    j = j + 1;
                    assert(data@ =~= bytes@.subrange(i + 1, j as int));
                }
                assert(data@ == take_data(bytes@, i as int, count as int));
                let ghost old_cmds = commands@.map_values(|c: Command| c@);
                let ghost dv = data@;
                commands.push(Command { kind, data });
                assert(commands@.map_values(|c: Command| c@) =~= old_cmds.push((kind, dv)));
                i = j;
            } else if b == LINE {
                let ghost old_cmds = commands@.map_values(|c: Command| c@);
                commands.push(Command { kind: CommandType::Line, data: Vec::new() });
                assert(commands@.map_values(|c: Command| c@) =~= old_cmds.push((CommandType::Line, Seq::empty())));
                i = i + 1;
            } else if b == EOF {
                i = n;
            } else if !in_header || i >= 12 {
                i = i + 1;
            } else if i < 4 {
                header.push(b);
                i = i + 1;
            } else {
                buffer.push(b);
                if i == 7 || i == 11 {
                    if buffer.len() < 4 {
                        return None;
                    }
                    let v = read_be_u32(buffer[0], buffer[1], buffer[2], buffer[3]);
                    if i == 7 {
                        dimensions = (v, dimensions.1);
                    } else {
                        dimensions = (dimensions.0, v);
                    }
                    buffer = Vec::new();
                }
                i = i + 1;
            }
        }
        let r = Graph { header, dimensions, commands };
        Some(r)
    }

    /// Whether the graph can be converted to SVG (see [`renderable`]).
    pub fn is_renderable(&self) -> (r: bool)
        ensures
            r == renderable(self@.commands),
    {
        let ghost cs = self@.commands;
        let mut i: usize = 0;
        while i < self.commands.len()
            invariant
                cs == self@.commands,
                cs.len() == self.commands.len(),
                i <= self.commands.len(),
                forall|k: int| 0 <= k < i ==> command_renderable(#[trigger] cs[k]),
            decreases self.commands.len() - i,
        {
            let c = &self.commands[i];
            assert(cs[i as int] == c@);
            let ok = match c.kind {
                CommandType::Size => c.data.len() >= 2,
                CommandType::Point => c.data.len() == 8,
                CommandType::Color | CommandType::Line => true,
                _ => false,
            };
            if !ok {
                assert(!command_renderable(cs[i as int]));
                return false;
            }
            i = i + 1;
        }
        true
    }

    /// Convert the graph to an SVG document.
    pub fn to_svg(&self) -> (r: String)
        requires
            renderable(self@.commands),
        ensures
            r@ == svg_of(self@),
    {
        let ghost g = self@;
        let mut out: Vec<char> = Vec::new();
        push_str(&mut out, "<svg viewBox=\"0 0 ");
        push_decimal(&mut out, self.dimensions.0 as u64);
        push_str(&mut out, " ");
        push_decimal(&mut out, self.dimensions.1 as u64);
        push_str(&mut out, "\" xmlns=\"http://www.w3.org/2000/svg\" style=\"background: white; width: ");
        push_decimal(&mut out, self.dimensions.0 as u64);
        push_str(&mut out, "px; height: ");
        push_decimal(&mut out, self.dimensions.1 as u64);
        push_str(&mut out, "px\" class=\"carpgraph\">");
        assert(out@ =~= svg_open(g.dimensions.0, g.dimensions.1));
        let mut size: u16 = 2;
        let mut color: Vec<char> = Vec::new();
        push_str(&mut color, "000000");
        let mut previous: Option<(u32, u32)> = None;
        let mut path: Vec<char> = Vec::new();
        let ghost st0 = SvgState {
            out: out@,
            size: 2,
            color: "000000"@,
            previous: None,
            path: Seq::empty(),
        };
        assert(color@ =~= "000000"@);
        let mut i: usize = 0;
        while i < self.commands.len()
            invariant
                g == self@,
                renderable(g.commands),
                g.commands.len() == self.commands.len(),
                i <= self.commands.len(),
                st0 == (SvgState {
                    out: svg_open(g.dimensions.0, g.dimensions.1),
                    size: 2,
                    color: "000000"@,
                    previous: None,
                    path: Seq::empty(),
                }),
                svg_steps(st0, g.commands, i as int) == (SvgState {
                    out: out@,
                    size,
                    color: color@,
                    previous,
                    path: path@,
                }),
            decreases self.commands.len() - i,
        {
            let c = &self.commands[i];
            assert(g.commands[i as int] == c@);
            assert(g.commands[i as int].0 == c.kind && g.commands[i as int].1 == c.data@);
            match c.kind {
                CommandType::Size => {
                    size = ((c.data[0] as u16) << 8u16) | (c.data[1] as u16);
                },
                CommandType::Color => {
                    let d = c.data.clone();
                    assert(d@ == c.data@);
                    match string_from_utf8(d) {
                        Some(s) => {
                            color = crate::text::chars_of(s.as_str());
                        },
                        None => {
                            color = Vec::new();
                            push_str(&mut color, "#000000");
                            assert(color@ =~= "#000000"@);
                        },
                    }
                },
                CommandType::Line => {
                    if path.len() > 0 {
                        let ghost before = out@;
                        push_str(&mut out, "<path d=\"");
                        push_all(&mut out, path.as_slice());
                        push_str(&mut out, "\" stroke=\"#");
                        push_all(&mut out, color.as_slice());
                        push_str(&mut out, "\" stroke-width=\"");
                        push_decimal(&mut out, size as u64);
                        push_str(&mut out, "\" />");
                        assert(out@ =~= before + path_element(path@, color@, size));
                    }
                    previous = None;
                    path = Vec::new();
                },
                CommandType::Point => {
                    let x = read_be_u32(c.data[0], c.data[1], c.data[2], c.data[3]);
                    let y = read_be_u32(c.data[4], c.data[5], c.data[6], c.data[7]);
                    let ghost pbefore = path@;
                    push_str(&mut path, " M");
                    push_decimal(&mut path, x as u64);
                    push_str(&mut path, " ");
                    push_decimal(&mut path, y as u64);
                    match previous {
                        Some(p) => {
                            push_str(&mut path, " L");
                            push_decimal(&mut path, p.0 as u64);
                            push_str(&mut path, " ");
                            push_decimal(&mut path, p.1 as u64);
                        },
                        None => {},
                    }
                    assert(path@ =~= pbefore + " M"@ + decimal(x as nat) + " "@ + decimal(y as nat) + match previous {
                        Some(p) => " L"@ + decimal(p.0 as nat) + " "@ + decimal(p.1 as nat),
                        None => Seq::<char>::empty(),
                    });
                    previous = Some((x, y));
                    let ghost before = out@;
                    push_str(&mut out, "<circle cx=\"");
                    push_decimal(&mut out, x as u64);
                    push_str(&mut out, "\" cy=\"");
                    push_decimal(&mut out, y as u64);
                    push_str(&mut out, "\" r=\"");
                    push_decimal(&mut out, (size / 2) as u64);
                    push_str(&mut out, "\" fill=\"#");
                    push_all(&mut out, color.as_slice());
                    push_str(&mut out, "\" />");
                    assert(out@ =~= before + "<circle cx=\""@ + decimal(x as nat) + "\" cy=\""@ + decimal(y as nat)
                        + "\" r=\""@ + decimal((size / 2) as nat) + "\" fill=\"#"@ + color@ + "\" />"@);
                },
                _ => {
                    assert(false);
                },
            }
            i = i + 1;
        }
        if path.len() > 0 {
            let ghost before = out@;
            push_str(&mut out, "<path d=\"");
            push_all(&mut out, path.as_slice());
            push_str(&mut out, "\" stroke=\"#");
            push_all(&mut out, color.as_slice());
            push_str(&mut out, "\" stroke-width=\"");
            push_decimal(&mut out, size as u64);
            push_str(&mut out, "\" />");
            assert(out@ =~= before + path_element(path@, color@, size));
        }
        push_str(&mut out, "</svg>");
        string_of(out.as_slice())
    }
}

impl CarpGraph for Graph {
    open spec fn can_decode(bytes: Seq<u8>) -> bool {
        decode(bytes) is Some
    }

    open spec fn can_render(&self) -> bool {
        renderable(self@.commands)
    }

    fn to_bytes(&self) -> (r: Vec<u8>)
        ensures
            r@ == graph_bytes(self@),
    {
        Graph::to_bytes(self)
    }

    fn from_bytes(bytes: Vec<u8>) -> (r: Graph)
        ensures
            decode(bytes@) == Some(r@),
    {
        Graph::from_bytes(bytes)
    }

    fn to_svg(&self) -> (r: String)
        ensures
            r@ == svg_of(self@),
    {
        Graph::to_svg(self)
    }
}

} // verus!
