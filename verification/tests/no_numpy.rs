use numpy_bridge::BoundaryFailure;
use numpy_bridge::ToNumpy;
use pyo3::exceptions::PyImportError;
use pyo3::Python;

#[test]
fn a_missing_module_is_a_resolution_failure() {
    Python::initialize();
    Python::attach(|py| {
        py.run(c"import sys; sys.modules['numpy'] = None", None, None).unwrap();
        let mut buffer: Vec<u32> = vec![1, 2, 3];
        match (&mut buffer).to_numpy(py) {
            Err(BoundaryFailure::Resolution(err)) => {
                assert!(err.is_instance_of::<PyImportError>(py));
            }
            other => panic!("expected a resolution failure, got {:?}", other),
        }
        assert_eq!(buffer, vec![1, 2, 3]);
    })
}
