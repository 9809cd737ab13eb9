#[test]
fn test() {
    println!("{}", 2_994_950_530_978u128 - 2_994_445_760_471u128)
}
