use numpy_bridge::BoundaryFailure;
use numpy_bridge::ToNumpy;
use pyo3::exceptions::PyAttributeError;
use pyo3::Python;

#[test]
fn a_missing_entry_point_is_a_resolution_failure() {
    Python::initialize();
    Python::attach(|py| {
        py.run(
            c"import sys, types; sys.modules['numpy'] = types.ModuleType('numpy')",
            None,
            None,
        )
        .unwrap();
        let mut buffer: Vec<i16> = vec![-1, 0, 1];
        match (&mut buffer).to_numpy(py) {
            Err(BoundaryFailure::Resolution(err)) => {
                assert!(err.is_instance_of::<PyAttributeError>(py));
            }
            other => panic!("expected a resolution failure, got {:?}", other),
        }
        assert_eq!(buffer, vec![-1, 0, 1]);
    })
}
