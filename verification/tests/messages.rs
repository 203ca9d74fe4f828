use imgur_a::messages;

#[test]
fn reading_the_proxy_list_failed() {
    assert_eq!(
        messages::proxy_read_failed("proxies.txt", "bad utf-8"),
        "Failed to read line from proxy file 'proxies.txt': bad utf-8"
    );
}

#[test]
fn opening_a_file_failed() {
    assert_eq!(
        messages::open_failed("proxies.txt", "no such file"),
        "Failed to open file 'proxies.txt': no such file"
    );
}

#[test]
fn numbers_are_written_out() {
    assert_eq!(messages::rate_limited(120), "Worker #120 got 429'd");
}
