// check, that the auto traits are available
const fn is_normal<T: Sized + Send + Sync>() {}

#[test]
fn error_normal_types() {
    is_normal::<dimas::utils::error::Error>();
}
