use quickdoctor::submit::{
    build_order_form, extract_submit_message, interpret_submit_response, is_success_url,
    submit_referer, ticket_url,
};

fn pairs(items: &[(&str, &str)]) -> Vec<(String, String)> {
    items.iter().map(|(k, v)| (k.to_string(), v.to_string())).collect()
}

#[test]
fn the_form_maps_the_fields() {
    let form = build_order_form(&pairs(&[
        ("member_id", "m1"),
        ("unit_id", "u"),
        ("dep_id", "d"),
        ("schedule_id", "s"),
        ("his_mem_id", "old"),
        ("detlid", "t1"),
        ("detlid", "t2"),
        ("extra", "dropped"),
    ]));
    let names: Vec<&str> = form.iter().map(|(k, _)| k.as_str()).collect();
    assert_eq!(
        names,
        vec![
            "sch_data", "mid", "addressId", "address", "hisMemId", "disease_input", "order_no",
            "disease_content", "accept", "unit_id", "schedule_id", "dep_id", "his_dep_id",
            "sch_date", "time_type", "doctor_id", "his_doc_id", "detlid", "detlid_realtime",
            "level_code", "is_hot",
        ]
    );
    let value = |name: &str| form.iter().find(|(k, _)| k == name).map(|(_, v)| v.as_str()).unwrap();
    assert_eq!(value("mid"), "m1");
    assert_eq!(value("accept"), "1");
    assert_eq!(value("hisMemId"), "old");
    assert_eq!(value("detlid"), "t1");
    assert_eq!(value("sch_data"), "");
    assert_eq!(submit_referer(&form), "https://www.91160.com/guahao/ystep1/uid-u/depid-d/schid-s.html");
    let form = build_order_form(&pairs(&[("his_mem_id", "old"), ("hisMemId", "new")]));
    assert_eq!(form[4], ("hisMemId".to_string(), "new".to_string()));
    assert_eq!(ticket_url("1", "2", "3"), "https://www.91160.com/guahao/ystep1/uid-1/depid-2/schid-3.html");
}

#[test]
fn success_is_read_from_the_address() {
    assert!(is_success_url("https://www.91160.com/order/SUCCESS.html"));
    assert!(!is_success_url("https://www.91160.com/guahao/ysubmit.html"));
    let reading = interpret_submit_response("https://www.91160.com/order/Success?id=1", "200 OK", "ignored");
    assert!(reading.result.success);
    assert!(reading.result.status);
    assert_eq!(reading.result.message, "OK");
    assert_eq!(reading.result.url.as_deref(), Some("https://www.91160.com/order/Success?id=1"));
    assert!(reading.last_error.is_none());
}

#[test]
fn reasons_are_found_in_order() {
    assert_eq!(extract_submit_message("<div class=\"error\" id=x> 号源不足 </div>"), "号源不足");
    assert_eq!(extract_submit_message("<span class=\"error\">x</span><div class=\"error\">y</div>"), "y");
    assert_eq!(extract_submit_message("<script>alert('请先登录')</script>"), "请先登录");
    assert_eq!(extract_submit_message("{\"code\":0,\"msg\" : \"操作太频繁\",\"message\":\"m\"}"), "操作太频繁");
    assert_eq!(extract_submit_message("{\"message\":\"only\"}"), "only");
    assert_eq!(extract_submit_message("<div class=\"error\">   </div>{\"msg\":\"second\"}"), "second");
    assert_eq!(extract_submit_message("<html>plain</html>"), "");
}

#[test]
fn a_throttled_answer_is_a_failure_with_its_reason() {
    let reading = interpret_submit_response(
        "https://www.91160.com/guahao/ysubmit.html",
        "200 OK",
        "{\"status\":0,\"msg\":\"操作太频繁\"}",
    );
    assert!(!reading.result.success);
    assert!(!reading.result.status);
    assert_eq!(reading.result.message, "submit failed: 操作太频繁");
    assert!(reading.result.url.is_none());
    assert_eq!(reading.last_error.as_deref(), Some("操作太频繁"));
    assert!(quickdoctor::grabber::is_too_fast_message(&reading.result.message));
}

#[test]
fn an_answer_without_a_reason_quotes_the_body() {
    let reading = interpret_submit_response("https://x/y", "500 Internal Server Error", "oops");
    assert_eq!(reading.result.message, "submit failed code=500 Internal Server Error, resp=oops");
    assert_eq!(reading.last_error.as_deref(), Some("submit failed code=500 Internal Server Error, resp=oops"));
    let long = "a".repeat(450);
    let reading = interpret_submit_response("https://x/y", "200 OK", &long);
    assert_eq!(reading.result.message, format!("submit failed code=200 OK, resp={}", "a".repeat(200)));
    let wide = "汉".repeat(100);
    let reading = interpret_submit_response("https://x/y", "200 OK", &wide);
    assert_eq!(reading.result.message, format!("submit failed code=200 OK, resp={}", "汉".repeat(66)));
    let exact = "b".repeat(200);
    let reading = interpret_submit_response("https://x/y", "200 OK", &exact);
    assert_eq!(reading.result.message, format!("submit failed code=200 OK, resp={}", exact));
}
