use driver_parity::generator::{cuda_driver_test, cuda_driver_tests, test_name, Backend, TestUnit};

#[test]
fn suffix_names_the_backend() {
    assert_eq!(Backend::NotCuda.suffix(), "_notcuda");
    assert_eq!(Backend::Cuda.suffix(), "_cuda");
}

#[test]
fn name_is_scenario_then_suffix() {
    assert_eq!(test_name("context_lifecycle", Backend::NotCuda), "context_lifecycle_notcuda");
    assert_eq!(test_name("context_lifecycle", Backend::Cuda), "context_lifecycle_cuda");
}

#[test]
fn empty_scenario_name_leaves_the_suffix() {
    assert_eq!(test_name("", Backend::Cuda), "_cuda");
}

#[test]
fn one_scenario_gives_one_test_per_backend() {
    let (first, second) = cuda_driver_test("destroy_twice");
    assert_eq!(
        first,
        TestUnit { name: "destroy_twice_notcuda".to_string(), backend: Backend::NotCuda }
    );
    assert_eq!(
        second,
        TestUnit { name: "destroy_twice_cuda".to_string(), backend: Backend::Cuda }
    );
}

#[test]
fn a_list_of_scenarios_gives_two_tests_each_in_order() {
    let funcs = vec!["a".to_string(), "b".to_string(), "c".to_string()];
    let units = cuda_driver_tests(&funcs);
    let names: Vec<&str> = units.iter().map(|u| u.name.as_str()).collect();
    assert_eq!(names, vec!["a_notcuda", "a_cuda", "b_notcuda", "b_cuda", "c_notcuda", "c_cuda"]);
    let backends: Vec<Backend> = units.iter().map(|u| u.backend).collect();
    assert_eq!(
        backends,
        vec![
            Backend::NotCuda,
            Backend::Cuda,
            Backend::NotCuda,
            Backend::Cuda,
            Backend::NotCuda,
            Backend::Cuda
        ]
    );
}

#[test]
fn no_scenarios_give_no_tests() {
    assert!(cuda_driver_tests(&Vec::new()).is_empty());
}

#[test]
fn generated_names_are_all_different() {
    let funcs = vec!["x".to_string(), "x_not".to_string(), "x_".to_string(), "".to_string()];
    let units = cuda_driver_tests(&funcs);
    assert_eq!(units.len(), 8);
    for i in 0..units.len() {
        for j in 0..units.len() {
            if i != j {
                assert_ne!(units[i].name, units[j].name);
            }
        }
    }
}

#[test]
fn generation_is_deterministic() {
    assert_eq!(cuda_driver_test("again"), cuda_driver_test("again"));
}
