use tauri_runtime_servo::ServoRuntime;

#[test]
fn placeholder() {
    let runtime = ServoRuntime;
    assert_eq!(runtime, ServoRuntime);
}
