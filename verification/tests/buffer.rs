use std::collections::VecDeque;

use obj_parser::{
    Decimal, Index, IndexError, ParameterSpaceVertex, TextureCoordinates, Vertex, VertexBuffer,
    VertexBufferError, VertexNormal,
};

fn d(v: i64) -> Decimal {
    Decimal::from_int(v)
}

fn deque(tokens: &[&str]) -> VecDeque<String> {
    tokens.iter().map(|t| String::from(*t)).collect()
}

#[test]
fn test_vertex_buffer_indexing() {
    let mut buffer = VertexBuffer::new();

    let third_vert = Vertex { x: d(10), y: d(10), z: d(10), w: d(1) };
    let second_to_last_vert = Vertex { x: d(10), y: d(10), z: d(-10), w: d(1) };

    // Default cube
    // Front
    buffer.add_vertex(Vertex { x: d(-10), y: d(-10), z: d(10), w: d(1) });
    buffer.add_vertex(Vertex { x: d(10), y: d(-10), z: d(10), w: d(1) });
    buffer.add_vertex(third_vert.clone());
    buffer.add_vertex(Vertex { x: d(-10), y: d(10), z: d(10), w: d(1) });
    // Back
    buffer.add_vertex(Vertex { x: d(-10), y: d(-10), z: d(-10), w: d(1) });
    buffer.add_vertex(Vertex { x: d(10), y: d(-10), z: d(-10), w: d(1) });
    buffer.add_vertex(second_to_last_vert.clone());
    buffer.add_vertex(Vertex { x: d(-10), y: d(10), z: d(-10), w: d(1) });

    let third_index = Index::new(3).unwrap();
    let second_to_last_index = Index::new(-2).unwrap();

    assert_eq!(buffer.get_vertex(third_index).unwrap(), third_vert);
    assert_eq!(buffer.get_vertex(second_to_last_index).unwrap(), second_to_last_vert);
}

#[test]
fn index_zero_is_rejected() {
    assert_eq!(Index::new(0), Err(IndexError::IndexIsZero));
    assert_eq!(Index::new(1).unwrap().as_isize(), 0);
    assert_eq!(Index::new(4).unwrap().as_isize(), 3);
    assert_eq!(Index::new(-1).unwrap().as_isize(), -1);
}

#[test]
fn out_of_range_lookups_are_bounds_errors() {
    let mut buffer = VertexBuffer::new();
    buffer.add_vertex(Vertex::new());
    let past_end = Index::new(2).unwrap();
    assert_eq!(buffer.get_vertex(past_end), Err(VertexBufferError::BoundsException));
    let before_start = Index::new(-2).unwrap();
    assert_eq!(buffer.get_vertex(before_start), Err(VertexBufferError::BoundsException));
    // A negative index equal to the length reaches the first element.
    let first = Index::new(-1).unwrap();
    assert_eq!(buffer.get_vertex(first), Ok(Vertex::new()));
}

#[test]
fn create_entries_from_tokens() {
    let mut buffer = VertexBuffer::new();

    // A three-token vertex takes the default weight of one.
    assert_eq!(buffer.create_vertex(&deque(&["1.0", "2.0", "3.0"])), Ok(()));
    let ix = Index::new(1).unwrap();
    assert_eq!(
        buffer.get_vertex(ix),
        Ok(Vertex { x: d(1), y: d(2), z: d(3), w: d(1) })
    );

    // A four-token vertex keeps its weight.
    assert_eq!(buffer.create_vertex(&deque(&["1", "2", "3", "0.5"])), Ok(()));
    let second = Index::new(2).unwrap();
    assert_eq!(
        buffer.get_vertex(second),
        Ok(Vertex { x: d(1), y: d(2), z: d(3), w: Decimal::parse("0.5").unwrap() })
    );

    // Malformed vertex data is an interpreter error and adds nothing.
    assert_eq!(
        buffer.create_vertex(&deque(&["1", "2"])),
        Err(VertexBufferError::InterpreterError)
    );
    assert_eq!(
        buffer.create_vertex(&deque(&["1", "2", "x"])),
        Err(VertexBufferError::InterpreterError)
    );

    assert_eq!(buffer.create_texture_coordinate(&deque(&["0.5", "0.5", "0"])), Ok(()));
    assert_eq!(
        buffer.get_texture_coordinate(ix),
        Ok(TextureCoordinates { u: Decimal::parse("0.5").unwrap(), v: Decimal::parse("0.5").unwrap(), w: d(0) })
    );

    assert_eq!(buffer.create_normal(&deque(&["0", "0", "1"])), Ok(()));
    assert_eq!(buffer.get_normal(ix), Ok(VertexNormal { i: d(0), j: d(0), k: d(1) }));

    assert_eq!(buffer.create_parameter_space_vertex(&deque(&["1", "2", "3", "4"])), Ok(()));
    assert_eq!(
        buffer.get_paramter_space_vertex(ix),
        Ok(ParameterSpaceVertex { u: d(1), v: d(2), w: d(3) })
    );

    assert_eq!(
        buffer.create_normal(&deque(&["0", "0"])),
        Err(VertexBufferError::InterpreterError)
    );
}

#[test]
fn vertex_from_tokens() {
    assert_eq!(
        Vertex::from(&deque(&["1", "2", "3"])),
        Some(Vertex { x: d(1), y: d(2), z: d(3), w: d(1) })
    );
    assert_eq!(
        Vertex::from(&deque(&["1", "2", "3", "4"])),
        Some(Vertex { x: d(1), y: d(2), z: d(3), w: d(4) })
    );
    assert_eq!(Vertex::from(&deque(&["1", "2"])), None);
    assert_eq!(Vertex::from(&deque(&["1", "2", "3", "4", "5"])), None);
    assert_eq!(Vertex::from(&deque(&["1", "two", "3"])), None);
}
