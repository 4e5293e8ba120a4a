use funds_ledger::calculator::i64_to_dec;
use funds_ledger::calculator::u64_to_dec;
use funds_ledger::calculator::Calculator;
use funds_ledger::calculator::Operation;
use funds_ledger::calculator::OperationType;

#[test]
fn signs_of_the_operations() {
    assert_eq!(OperationType::Addition.get_sign(), "+");
    assert_eq!(OperationType::Subtraction.get_sign(), "-");
    assert_eq!(OperationType::Multiplication.get_sign(), "*");
}

#[test]
fn perform_computes_exact_results() {
    assert_eq!(OperationType::Addition.perform(5, 3), Some(8));
    assert_eq!(OperationType::Subtraction.perform(10, 2), Some(8));
    assert_eq!(OperationType::Multiplication.perform(-4, 6), Some(-24));
}

#[test]
fn perform_reports_overflow_as_none() {
    assert_eq!(OperationType::Addition.perform(i64::MAX, 1), None);
    assert_eq!(OperationType::Subtraction.perform(i64::MIN, 1), None);
    assert_eq!(OperationType::Multiplication.perform(i64::MAX, 2), None);
    assert_eq!(OperationType::Multiplication.perform(i64::MIN, -1), None);
}

#[test]
fn operation_record_performs_itself() {
    let op = Operation::new(7, -2, OperationType::Multiplication);
    assert_eq!(op.first_num, 7);
    assert_eq!(op.second_num, -2);
    assert_eq!(op.perform(), Some(-14));
}

#[test]
fn successful_operations_are_recorded() {
    let mut c = Calculator::new();
    assert_eq!(c.addition(5, 3), Some(8));
    assert_eq!(c.subtraction(10, 2), Some(8));
    assert_eq!(c.multiplication(6, 7), Some(42));
    assert_eq!(c.history.len(), 3);
}

#[test]
fn overflowing_operations_are_not_recorded() {
    let mut c = Calculator::new();
    assert_eq!(c.addition(i64::MAX, 1), None);
    assert_eq!(c.subtraction(i64::MIN, 1), None);
    assert_eq!(c.multiplication(i64::MAX, i64::MAX), None);
    assert_eq!(c.history.len(), 0);
}

#[test]
fn show_history_renders_one_line_per_operation() {
    let mut c = Calculator::new();
    c.addition(5, 3);
    c.subtraction(10, 2);
    assert_eq!(c.show_history(), "0: 5 + 3 = 8\n1: 10 - 2 = 8\n");
}

#[test]
fn show_history_renders_negative_numbers() {
    let mut c = Calculator::new();
    c.multiplication(-4, 6);
    assert_eq!(c.show_history(), "0: -4 * 6 = -24\n");
}

#[test]
fn show_history_of_empty_history_is_empty() {
    let c = Calculator::new();
    assert_eq!(c.show_history(), "");
}

#[test]
fn repeat_replays_a_recorded_operation() {
    let mut c = Calculator::new();
    c.addition(5, 3);
    assert_eq!(c.repeat(0), Some(8));
    assert_eq!(c.history.len(), 2);
    assert_eq!(c.show_history(), "0: 5 + 3 = 8\n1: 5 + 3 = 8\n");
}

#[test]
fn repeat_of_an_invalid_index_returns_none() {
    let mut c = Calculator::new();
    c.addition(5, 3);
    assert_eq!(c.repeat(1), None);
    assert_eq!(c.history.len(), 1);
}

#[test]
fn clear_history_empties_the_log() {
    let mut c = Calculator::new();
    c.addition(5, 3);
    c.multiplication(2, 2);
    c.clear_history();
    assert_eq!(c.history.len(), 0);
    assert_eq!(c.show_history(), "");
}

#[test]
fn decimal_rendering_is_exact() {
    assert_eq!(u64_to_dec(0), "0");
    assert_eq!(u64_to_dec(7), "7");
    assert_eq!(u64_to_dec(10), "10");
    assert_eq!(u64_to_dec(90210), "90210");
    assert_eq!(u64_to_dec(u64::MAX), "18446744073709551615");
    assert_eq!(i64_to_dec(0), "0");
    assert_eq!(i64_to_dec(-1), "-1");
    assert_eq!(i64_to_dec(i64::MAX), "9223372036854775807");
    assert_eq!(i64_to_dec(i64::MIN), "-9223372036854775808");
}
