use numpy_bridge::BoundaryFailure;
use numpy_bridge::ToNumpy;
use pyo3::exceptions::PyRuntimeError;
use pyo3::types::PyDict;
use pyo3::Python;

#[test]
fn a_failing_entry_point_is_a_construction_failure() {
    Python::initialize();
    Python::attach(|py| {
        let scope = PyDict::new(py);
        py.run(
            cr#"
import sys
import types

def frombuffer(buffer, dtype):
    raise RuntimeError('refused %d bytes of %s' % (len(buffer), dtype))

module = types.ModuleType('numpy')
module.frombuffer = frombuffer
sys.modules['numpy'] = module
"#,
            Some(&scope),
            None,
        )
        .unwrap();
        let mut buffer: Vec<u64> = vec![1, 2, 3];
        match (&mut buffer).to_numpy(py) {
            Err(BoundaryFailure::Construction(err)) => {
                assert!(err.is_instance_of::<PyRuntimeError>(py));
                assert_eq!(err.value(py).to_string(), "refused 24 bytes of uint64");
            }
            other => panic!("expected a construction failure, got {:?}", other),
        }
        assert_eq!(buffer, vec![1, 2, 3]);
    })
}
