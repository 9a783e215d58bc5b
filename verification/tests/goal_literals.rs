use orchestration::goal_literals::{
    exact_i16_literal, exact_i8_literal, exact_integer_literal, exact_literals, exact_symbol_literal,
    GoalExpression, GoalLiteral,
};

const STAGE: u32 = 1;
const ROOM: u32 = 2;

fn equal(field: u32, value: GoalLiteral) -> GoalExpression {
    GoalExpression::EqualTo { field, value }
}

fn and(left: GoalExpression, right: GoalExpression) -> GoalExpression {
    GoalExpression::And(Box::new(left), Box::new(right))
}

#[test]
fn literals_are_collected_through_conjunctions_only() {
    let goal = and(
        equal(STAGE, GoalLiteral::Symbol("F_SP103".into())),
        and(equal(ROOM, GoalLiteral::I32(3)), GoalExpression::Other),
    );
    assert_eq!(exact_literals(&goal, ROOM).len(), 1);
    assert_eq!(exact_literals(&goal, 9).len(), 0);
    assert_eq!(exact_symbol_literal(&goal, STAGE).unwrap(), "F_SP103");
    assert_eq!(exact_integer_literal(&goal, ROOM).unwrap(), 3);
    assert_eq!(exact_i8_literal(&goal, ROOM).unwrap(), 3i8);
    assert_eq!(exact_i16_literal(&goal, ROOM).unwrap(), 3i16);
}

#[test]
fn repeated_equal_literals_count_once() {
    let goal = and(equal(ROOM, GoalLiteral::U32(4)), equal(ROOM, GoalLiteral::U64(4)));
    assert_eq!(exact_integer_literal(&goal, ROOM).unwrap(), 4);
    let symbols = and(equal(STAGE, GoalLiteral::Symbol("A".into())), equal(STAGE, GoalLiteral::Symbol("A".into())));
    assert_eq!(exact_symbol_literal(&symbols, STAGE).unwrap(), "A");
}

#[test]
fn ambiguous_missing_or_mistyped_literals_are_refused() {
    let two = and(equal(ROOM, GoalLiteral::I32(4)), equal(ROOM, GoalLiteral::I32(5)));
    assert_eq!(
        exact_integer_literal(&two, ROOM).unwrap_err().message,
        "goal transition requires one exact integer field literal"
    );
    assert_eq!(
        exact_integer_literal(&GoalExpression::Other, ROOM).unwrap_err().message,
        "goal transition requires one exact integer field literal"
    );
    let mistyped = and(equal(ROOM, GoalLiteral::Symbol("x".into())), equal(ROOM, GoalLiteral::U64(u64::MAX)));
    assert_eq!(exact_integer_literal(&mistyped, ROOM).unwrap_err().message, "goal transition literal has the wrong type");
    let huge = equal(ROOM, GoalLiteral::U64(u64::MAX));
    assert_eq!(
        exact_integer_literal(&huge, ROOM).unwrap_err().message,
        "out of range integral type conversion attempted"
    );
    let wide = equal(ROOM, GoalLiteral::I32(300));
    assert!(exact_i8_literal(&wide, ROOM).is_err());
    assert_eq!(exact_i16_literal(&wide, ROOM).unwrap(), 300);
    let other = equal(STAGE, GoalLiteral::Other);
    assert_eq!(exact_symbol_literal(&other, STAGE).unwrap_err().message, "goal transition literal has the wrong type");
    let symbols = and(equal(STAGE, GoalLiteral::Symbol("A".into())), equal(STAGE, GoalLiteral::Symbol("B".into())));
    assert_eq!(
        exact_symbol_literal(&symbols, STAGE).unwrap_err().message,
        "goal transition requires one exact symbolic field literal"
    );
}
