use query_logger::logger::QueryLogger;
use std::sync::Arc;
use std::sync::Mutex;

struct Recorder {
    records: Arc<Mutex<Vec<String>>>,
}

impl log::Log for Recorder {
    fn enabled(&self, _metadata: &log::Metadata) -> bool {
        true
    }

    fn log(&self, record: &log::Record) {
        self.records.lock().unwrap().push(format!("{}", record.args()));
    }

    fn flush(&self) {}
}

#[test]
fn excluded_severities_cause_no_emission() {
    let records = Arc::new(Mutex::new(Vec::new()));
    log::set_boxed_logger(Box::new(Recorder { records: records.clone() })).unwrap();

    // A ceiling of Error excludes both Informational and Warning: the
    // instrument must not call the logger at all.
    log::set_max_level(log::LevelFilter::Error);
    {
        let mut ql = QueryLogger::new("SELECT * FROM users WHERE id = 1");
        ql.increment_rows();
        ql.finish();
    }
    assert_eq!(records.lock().unwrap().len(), 0);

    // Raising the ceiling shows the filter was the only reason for silence.
    log::set_max_level(log::LevelFilter::Info);
    {
        let _ql = QueryLogger::new("SELECT 2");
    }
    assert_eq!(records.lock().unwrap().len(), 1);
}
