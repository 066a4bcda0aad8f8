use rainbeam_core::carp::{
    CarpGraph, Command, CommandType, Graph, COLOR, END_OF_HEADER, EOF, LINE, POINT, SIZE,
};

fn sample() -> Graph {
    Graph {
        header: b"CG02".to_vec(),
        dimensions: (100, 50),
        commands: vec![
            Command { kind: CommandType::Color, data: b"ff0000".to_vec() },
            Command { kind: CommandType::Size, data: vec![0, 4] },
            Command { kind: CommandType::Point, data: vec![0, 0, 0, 10, 0, 0, 0, 20] },
            Command { kind: CommandType::Point, data: vec![0, 0, 0, 30, 0, 0, 0, 40] },
            Command { kind: CommandType::Line, data: vec![] },
        ],
    }
}

fn sample_bytes() -> Vec<u8> {
    let mut b = b"CG02".to_vec();
    b.extend_from_slice(&[0, 0, 0, 100, 0, 0, 0, 50, END_OF_HEADER]);
    b.push(COLOR);
    b.extend_from_slice(b"ff0000");
    b.extend_from_slice(&[SIZE, 0, 4]);
    b.extend_from_slice(&[POINT, 0, 0, 0, 10, 0, 0, 0, 20]);
    b.extend_from_slice(&[POINT, 0, 0, 0, 30, 0, 0, 0, 40]);
    b.push(LINE);
    b.push(EOF);
    b
}

fn same_graph(a: &Graph, b: &Graph) -> bool {
    a.header == b.header
        && a.dimensions == b.dimensions
        && a.commands.len() == b.commands.len()
        && a.commands.iter().zip(b.commands.iter()).all(|(x, y)| x.kind == y.kind && x.data == y.data)
}

#[test]
fn marker_bytes() {
    assert_eq!(CommandType::EndOfHeader.byte(), 0x1a);
    assert_eq!(CommandType::Color.byte(), 0x1b);
    assert_eq!(CommandType::Size.byte(), 0x2b);
    assert_eq!(CommandType::Line.byte(), 0x3b);
    assert_eq!(CommandType::Point.byte(), 0x4b);
    assert_eq!(CommandType::Eof.byte(), 0x1f);
    assert_eq!(Command { kind: CommandType::Size, data: vec![0, 2] }.into_bytes(), vec![0x2b, 0, 2]);
}

#[test]
fn graph_serialises_to_the_byte_format() {
    assert_eq!(sample().to_bytes(), sample_bytes());
    assert_eq!(<Graph as CarpGraph>::to_bytes(&sample()), sample_bytes());
}

#[test]
fn bytes_round_trip() {
    let g = sample();
    let back = Graph::from_bytes(g.to_bytes());
    assert!(same_graph(&g, &back));
    let decoded = Graph::decode_bytes(sample_bytes()).expect("decodes");
    assert!(same_graph(&g, &decoded));
}

#[test]
fn short_data_at_the_end_is_kept() {
    let mut b = b"CG02".to_vec();
    b.extend_from_slice(&[0, 0, 0, 1, 0, 0, 0, 1, END_OF_HEADER, POINT, 0, 0]);
    let g = Graph::from_bytes(b);
    assert_eq!(g.dimensions, (1, 1));
    assert_eq!(g.commands.len(), 1);
    assert_eq!(g.commands[0].kind, CommandType::Point);
    assert_eq!(g.commands[0].data, vec![0, 0]);
    assert!(!g.is_renderable());
}

#[test]
fn a_marker_inside_the_dimensions_fails_to_decode() {
    let b = vec![0x43, 0x47, 0x30, 0x32, 0, LINE, 0, 0, 0, 0, 0, 0];
    assert!(Graph::decode_bytes(b).is_none());
}

#[test]
fn svg_rendering() {
    let g = sample();
    assert!(g.is_renderable());
    let expected = "<svg viewBox=\"0 0 100 50\" xmlns=\"http://www.w3.org/2000/svg\" style=\"background: white; width: 100px; height: 50px\" class=\"carpgraph\"><circle cx=\"10\" cy=\"20\" r=\"2\" fill=\"#ff0000\" /><circle cx=\"30\" cy=\"40\" r=\"2\" fill=\"#ff0000\" /><path d=\" M10 20 M30 40 L10 20\" stroke=\"#ff0000\" stroke-width=\"4\" /></svg>";
    assert_eq!(g.to_svg(), expected);
}

#[test]
fn svg_of_an_open_path_and_a_bad_color() {
    let g = Graph {
        header: b"CG02".to_vec(),
        dimensions: (8, 9),
        commands: vec![
            Command { kind: CommandType::Color, data: vec![0xff, 0xfe] },
            Command { kind: CommandType::Point, data: vec![0, 0, 0, 1, 0, 0, 0, 2] },
        ],
    };
    let expected = "<svg viewBox=\"0 0 8 9\" xmlns=\"http://www.w3.org/2000/svg\" style=\"background: white; width: 8px; height: 9px\" class=\"carpgraph\"><circle cx=\"1\" cy=\"2\" r=\"1\" fill=\"##000000\" /><path d=\" M1 2\" stroke=\"##000000\" stroke-width=\"2\" /></svg>";
    assert_eq!(g.to_svg(), expected);
}

#[test]
fn unrenderable_commands() {
    let g = Graph {
        header: b"CG02".to_vec(),
        dimensions: (1, 1),
        commands: vec![Command { kind: CommandType::Size, data: vec![1] }],
    };
    assert!(!g.is_renderable());
    let h = Graph {
        header: b"CG02".to_vec(),
        dimensions: (1, 1),
        commands: vec![Command { kind: CommandType::Eof, data: vec![] }],
    };
    assert!(!h.is_renderable());
}
