use rs_1722::ptp::instance::{config_contents, config_path, pmc_args, ptp4l_args, PtpRole};

#[test]
fn configuration_names_its_own_sockets() {
    assert_eq!(config_path("slave", 4242), "/tmp/ptp4l-slave-4242.cfg");
    assert_eq!(
        config_contents("slave", 4242),
        "[global]\nuds_address /var/run/ptp4l-slave-4242\nuds_ro_address /var/run/ptp4l-slave-4242-ro\n"
    );
    assert_eq!(config_path("m", 0), "/tmp/ptp4l-m-0.cfg");
}

#[test]
fn slaves_get_the_slave_only_flag() {
    let master = ptp4l_args("enp1s0", "/tmp/x.cfg", PtpRole::Master);
    assert_eq!(master, vec!["-i", "enp1s0", "-H", "-m", "-2", "-f", "/tmp/x.cfg"]);
    let slave = ptp4l_args("enp3s0", "/tmp/y.cfg", PtpRole::Slave);
    assert_eq!(slave.last().map(String::as_str), Some("-s"));
    assert_eq!(slave.len(), 8);
}

#[test]
fn pmc_queries_three_datasets() {
    assert_eq!(
        pmc_args("/tmp/x.cfg"),
        vec![
            "-u",
            "-b",
            "0",
            "-f",
            "/tmp/x.cfg",
            "GET TIME_STATUS_NP",
            "GET PORT_DATA_SET",
            "GET CURRENT_DATA_SET"
        ]
    );
}
