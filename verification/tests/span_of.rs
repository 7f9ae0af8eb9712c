use memoffset::layout::{size_of, Field, TypeDesc};
use memoffset::offset_of::{offset_of, Step};
use memoffset::span_of::{span_of, Span, SpanExpr};

fn prim(size: usize) -> TypeDesc {
    TypeDesc::Prim { size }
}

fn array(elem: TypeDesc, len: usize) -> TypeDesc {
    TypeDesc::Array { elem: Box::new(elem), len }
}

fn field(name: &str, ty: TypeDesc) -> Field {
    Field { name: name.to_string(), ty }
}

fn member(name: &str) -> Step {
    Step::Member { name: name.to_string() }
}

fn index(i: usize) -> Step {
    Step::Index { index: i }
}

fn sp(start: usize, end: usize) -> Span {
    Span { start, end }
}

fn single(path: Vec<Step>) -> SpanExpr {
    SpanExpr::Single { path }
}

fn excl(start: Vec<Step>, end: Vec<Step>) -> SpanExpr {
    SpanExpr::Exclusive { start, end }
}

fn incl(start: Vec<Step>, end: Vec<Step>) -> SpanExpr {
    SpanExpr::Inclusive { start, end }
}

fn to_excl(end: Vec<Step>) -> SpanExpr {
    SpanExpr::ToExclusive { end }
}

fn to_incl(end: Vec<Step>) -> SpanExpr {
    SpanExpr::ToInclusive { end }
}

fn from(start: Vec<Step>) -> SpanExpr {
    SpanExpr::From { start }
}

// Foo { a: u32, b: [u8; 4], c: i64 }, laid out packed.
fn foo() -> TypeDesc {
    TypeDesc::Struct {
        fields: vec![
            field("a", prim(4)),
            field("b", array(prim(1), 4)),
            field("c", prim(8)),
        ],
    }
}

#[test]
fn span_integer() {
    // The empty path denotes the whole type.
    let t = prim(4);
    assert_eq!(span_of(&t, &single(vec![])), Ok(sp(0, 4)));
    assert_eq!(span_of(&t, &excl(vec![], vec![])), Ok(sp(0, 0)));
    assert_eq!(span_of(&t, &incl(vec![], vec![])), Ok(sp(0, 4)));
}

#[test]
fn span_simple() {
    let foo = foo();
    assert_eq!(span_of(&foo, &single(vec![member("a")])), Ok(sp(0, 4)));
    assert_eq!(span_of(&foo, &single(vec![member("b")])), Ok(sp(4, 8)));
    assert_eq!(span_of(&foo, &single(vec![member("c")])), Ok(sp(8, 16)));
}

#[test]
fn span_index() {
    let foo = foo();
    assert_eq!(span_of(&foo, &single(vec![member("b"), index(1)])), Ok(sp(5, 6)));
}

#[test]
fn span_forms() {
    // Florp { a: u32 }
    let florp = TypeDesc::Struct { fields: vec![field("a", prim(4))] };
    // Blarg { x: u64, y: [u8; 56], z: Florp, egg: [[u8; 4]; 4] }
    let blarg = TypeDesc::Struct {
        fields: vec![
            field("x", prim(8)),
            field("y", array(prim(1), 56)),
            field("z", florp),
            field("egg", array(array(prim(1), 4), 4)),
        ],
    };

    assert_eq!(Ok(sp(0, 8)), span_of(&blarg, &single(vec![member("x")])));
    assert_eq!(Ok(sp(64, 68)), span_of(&blarg, &single(vec![member("z"), member("a")])));
    assert_eq!(Ok(sp(79, 80)), span_of(&blarg, &single(vec![member("egg"), index(2), index(3)])));

    assert_eq!(
        Ok(sp(8, 64)),
        span_of(&blarg, &excl(vec![member("y"), index(0)], vec![member("z")]))
    );
    assert_eq!(
        Ok(sp(0, 42)),
        span_of(&blarg, &excl(vec![member("x")], vec![member("y"), index(34)]))
    );
    assert_eq!(Ok(sp(0, 64)), span_of(&blarg, &incl(vec![member("x")], vec![member("y")])));
    assert_eq!(
        Ok(sp(58, 68)),
        span_of(&blarg, &incl(vec![member("y"), index(50)], vec![member("z")]))
    );
}

#[test]
fn ig_test() {
    // Member { foo: u32 }
    let member_ty = TypeDesc::Struct { fields: vec![field("foo", prim(4))] };
    // Test { x: u64, y: [u8; 56], z: Member, egg: [[u8; 4]; 4] }
    let test = TypeDesc::Struct {
        fields: vec![
            field("x", prim(8)),
            field("y", array(prim(1), 56)),
            field("z", member_ty),
            field("egg", array(array(prim(1), 4), 4)),
        ],
    };
    let off = |path: &Vec<Step>| offset_of(&test, path).unwrap();
    let whole = size_of(&test);

    assert_eq!(span_of(&test, &to_excl(vec![member("x")])), Ok(sp(0, 0)));
    assert_eq!(span_of(&test, &to_incl(vec![member("x")])), Ok(sp(0, 8)));
    assert_eq!(span_of(&test, &to_excl(vec![member("y")])), Ok(sp(0, 8)));
    assert_eq!(span_of(&test, &to_incl(vec![member("y")])), Ok(sp(0, 64)));
    assert_eq!(span_of(&test, &to_excl(vec![member("y"), index(0)])), Ok(sp(0, 8)));
    assert_eq!(span_of(&test, &to_incl(vec![member("y"), index(0)])), Ok(sp(0, 9)));
    assert_eq!(span_of(&test, &to_excl(vec![member("z")])), Ok(sp(0, 64)));
    assert_eq!(span_of(&test, &to_incl(vec![member("z")])), Ok(sp(0, 68)));
    assert_eq!(span_of(&test, &to_excl(vec![member("z"), member("foo")])), Ok(sp(0, 64)));
    assert_eq!(span_of(&test, &to_incl(vec![member("z"), member("foo")])), Ok(sp(0, 68)));
    assert_eq!(span_of(&test, &to_excl(vec![member("egg")])), Ok(sp(0, 68)));
    assert_eq!(span_of(&test, &to_incl(vec![member("egg")])), Ok(sp(0, 84)));
    assert_eq!(span_of(&test, &to_excl(vec![member("egg"), index(0)])), Ok(sp(0, 68)));
    assert_eq!(span_of(&test, &to_incl(vec![member("egg"), index(0)])), Ok(sp(0, 72)));
    assert_eq!(span_of(&test, &to_excl(vec![member("egg"), index(0), index(0)])), Ok(sp(0, 68)));
    assert_eq!(span_of(&test, &to_incl(vec![member("egg"), index(0), index(0)])), Ok(sp(0, 69)));

    assert_eq!(
        span_of(&test, &from(vec![member("x")])),
        Ok(sp(off(&vec![member("x")]), whole))
    );
    assert_eq!(
        span_of(&test, &from(vec![member("y")])),
        Ok(sp(off(&vec![member("y")]), whole))
    );
    assert_eq!(
        span_of(&test, &from(vec![member("y"), index(0)])),
        Ok(sp(off(&vec![member("y"), index(0)]), whole))
    );
    assert_eq!(
        span_of(&test, &from(vec![member("z")])),
        Ok(sp(off(&vec![member("z")]), whole))
    );
    assert_eq!(
        span_of(&test, &from(vec![member("z"), member("foo")])),
        Ok(sp(off(&vec![member("z"), member("foo")]), whole))
    );
    assert_eq!(
        span_of(&test, &from(vec![member("egg")])),
        Ok(sp(off(&vec![member("egg")]), whole))
    );
    assert_eq!(
        span_of(&test, &from(vec![member("egg"), index(0)])),
        Ok(sp(off(&vec![member("egg"), index(0)]), whole))
    );
    assert_eq!(
        span_of(&test, &from(vec![member("egg"), index(0), index(0)])),
        Ok(sp(off(&vec![member("egg"), index(0), index(0)]), whole))
    );

    assert_eq!(
        span_of(&test, &excl(vec![member("x")], vec![member("y")])),
        Ok(sp(off(&vec![member("x")]), off(&vec![member("y")])))
    );
    assert_eq!(
        span_of(&test, &incl(vec![member("x")], vec![member("y")])),
        Ok(sp(off(&vec![member("x")]), off(&vec![member("y")]) + size_of(&array(prim(1), 56))))
    );
    assert_eq!(
        span_of(&test, &excl(vec![member("x")], vec![member("y"), index(4)])),
        Ok(sp(off(&vec![member("x")]), off(&vec![member("y"), index(4)])))
    );
    assert_eq!(
        span_of(&test, &incl(vec![member("x")], vec![member("y"), index(4)])),
        Ok(sp(off(&vec![member("x")]), off(&vec![member("y")]) + size_of(&array(prim(1), 5))))
    );
    assert_eq!(
        span_of(&test, &excl(vec![member("x")], vec![member("z"), member("foo")])),
        Ok(sp(off(&vec![member("x")]), off(&vec![member("z"), member("foo")])))
    );
    assert_eq!(
        span_of(&test, &incl(vec![member("x")], vec![member("z"), member("foo")])),
        Ok(sp(off(&vec![member("x")]), off(&vec![member("z"), member("foo")]) + size_of(&prim(4))))
    );
    assert_eq!(
        span_of(
            &test,
            &excl(
                vec![member("egg"), index(0), index(0)],
                vec![member("egg"), index(1), index(0)],
            )
        ),
        Ok(sp(
            off(&vec![member("egg"), index(0), index(0)]),
            off(&vec![member("egg"), index(1), index(0)]),
        ))
    );
}
