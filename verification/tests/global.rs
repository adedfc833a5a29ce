use crossbeam_channel::bounded;
use rayon::ThreadPoolBuilder;
use rayon_on_worker::buildable::WebPoolBuildable;
use rayon_on_worker::builder::{BuildError, WebWorkersBuilder};
use rayon_on_worker::receiver::WasmReceiver;
use rayon_on_worker::shared::SharedValue;
use rayon_on_worker::worker::wbg_rayon_start_global_worker;

#[test]
fn the_global_pool_runs_on_the_workers_that_took_its_tasks() {
    let mut builder = WebWorkersBuilder::new().num_workers(3).share(SharedValue::text("unused"));
    let request = builder.build_global().unwrap();
    assert!(request.is_global);
    assert_eq!(request.slots, 0);

    // The workers: three plain threads that a scoped helper pool starts and
    // never uses. They run for as long as the process, so the scope lives on
    // a thread of its own.
    let host = ThreadPoolBuilder::new().num_threads(1).build().unwrap();
    let tasks = WasmReceiver::new(builder.rendezvous().unwrap().receiver().channel().clone());
    let (report, reports) = bounded::<usize>(3);
    let workers = request.num_workers;
    host.spawn(move || {
        let _ = ThreadPoolBuilder::new().num_threads(workers).build_scoped(
            |_unused| {
                let task = wbg_rayon_start_global_worker(&tasks).unwrap();
                report.send(task.index()).unwrap();
                task.run();
            },
            |_pool| (),
        );
    });

    let built = ThreadPoolBuilder::new().build_on_workers_global(&mut builder);
    assert!(built.is_ok());
    assert_eq!(builder.tasks_pushed(), 3);
    assert_eq!(builder.slot_count(), 0);
    assert_eq!(rayon::current_num_threads(), 3);
    let mut taken = vec![reports.recv().unwrap(), reports.recv().unwrap(), reports.recv().unwrap()];
    taken.sort();
    assert_eq!(taken, vec![0, 1, 2]);
    assert_eq!(builder.rendezvous().unwrap().receiver().channel().len(), 0);
    let sum = rayon::join(|| 20, || 22);
    assert_eq!(sum.0 + sum.1, 42);

    let mut again = WebWorkersBuilder::new().num_workers(2);
    again.build_global().unwrap();
    let second = ThreadPoolBuilder::new().build_on_workers_global(&mut again);
    assert!(matches!(second, Err(BuildError::Pool(_))));
    assert_eq!(again.tasks_pushed(), 0);
}
