use quickdoctor::pages::{
    city_or_default, city_origin, city_referer, departments_url, input_value, is_login_page,
    login_verdict, parse_addresses, parse_members, parse_ticket_detail, parse_time_slots,
    server_time_millis,
};
use quickdoctor::types::Member;

fn strings(items: &[&str]) -> Vec<String> {
    items.iter().map(|s| s.to_string()).collect()
}

const PAGE: &str = r#"<html><body>
<ul id="delts">
  <li val="t1"> 08:00-08:30 </li>
  <li>no value</li>
  <li val="">empty value</li>
  <li val="t2"><span>09:00</span>-09:30</li>
</ul>
<form>
  <input name="sch_data" value=" blob ">
  <input id="detlid_realtime" value="rt">
  <input id="level_code" value="lc">
  <input id="sch_date" value="2024-01-01">
  <input name="order_no">
  <input id="order_no" value="on-2">
  <input name="disease_content" value="dc">
  <textarea name="disease_input" value="di">text</textarea>
  <input name="is_hot" value="1">
  <input id="hismemid" value="hm">
  <select name="addressId">
    <option value="0">请选择</option>
    <option value="">none</option>
    <option value="30">请选择地址</option>
    <option value=" 31 "> First Road </option>
    <option value="-1">x</option>
    <option value="32">Second Road</option>
    <option value="33"></option>
  </select>
  <select id="useraddress_area"><option value="99">Other list</option></select>
</form>
</body></html>"#;

#[test]
fn the_booking_page_is_read() {
    let d = parse_ticket_detail(PAGE);
    let times: Vec<(&str, &str)> = d.times.iter().map(|t| (t.name.as_str(), t.value.as_str())).collect();
    assert_eq!(times, vec![("08:00-08:30", "t1"), ("09:00-09:30", "t2")]);
    assert_eq!(d.time_slots.len(), 2);
    assert_eq!(d.sch_data, "blob");
    assert_eq!(d.detlid_realtime, "rt");
    assert_eq!(d.level_code, "lc");
    assert_eq!(d.sch_date, "2024-01-01");
    assert_eq!(d.order_no, "on-2");
    assert_eq!(d.disease_content, "dc");
    assert_eq!(d.disease_input, "di");
    assert_eq!(d.is_hot, "1");
    assert_eq!(d.his_mem_id, "hm");
    let addresses: Vec<(&str, &str)> = d.addresses.iter().map(|a| (a.id.as_str(), a.text.as_str())).collect();
    assert_eq!(addresses, vec![("31", "First Road"), ("32", "Second Road")]);
    assert_eq!(d.address_id, "31");
    assert_eq!(d.address, "First Road");
}

#[test]
fn the_page_s_own_address_comes_first() {
    let page = r#"<input name="addressId" value="5"><input id="address" value=" Own Road ">
        <select id="useraddress_area"><option value="9">Listed</option></select>"#;
    let d = parse_ticket_detail(page);
    assert_eq!(d.address_id, "5");
    assert_eq!(d.address, "Own Road");
    assert_eq!(d.addresses.len(), 1);
    let page = r#"<input name="addressId" value="5"><select id="useraddress_area"><option value="9">Listed</option></select>"#;
    let d = parse_ticket_detail(page);
    assert_eq!(d.address_id, "5");
    assert_eq!(d.address, "Listed");
}

#[test]
fn an_empty_page_holds_nothing() {
    let d = parse_ticket_detail("");
    assert!(d.times.is_empty());
    assert!(d.addresses.is_empty());
    assert_eq!(d.sch_data, "");
    assert_eq!(d.address_id, "");
    assert!(parse_time_slots("<p>x</p>").is_empty());
}

#[test]
fn selectors_are_tried_in_order() {
    let page = r#"<input id="a"><input id="b" value="second"><input id="c" value="third">"#;
    assert_eq!(input_value(page, &strings(&["#a", "#b", "#c"])), "second");
    assert_eq!(input_value(page, &strings(&["#c", "#b"])), "third");
    assert_eq!(input_value(page, &strings(&["][", "#zz", "#b"])), "second");
    assert_eq!(input_value(page, &strings(&["#zz"])), "");
    assert_eq!(input_value(page, &[].to_vec()), "");
    let lists = r#"<select id="one"></select><select id="two"><option value="1">A</option></select>"#;
    assert!(parse_addresses(lists, &strings(&["#one", "#two"])).is_empty());
    assert_eq!(parse_addresses(lists, &strings(&["#none", "((", "#two"])).len(), 1);
}

const MEMBERS: &str = r#"<html><body><table><tbody id="mem_list">
<tr id="mem101"><td> 张三默认 </td><td>已认证</td></tr>
<tr id="mem102"><td>李四</td><td>未实名</td></tr>
<tr id="memmem7"><td></td></tr>
<tr><td></td></tr>
<tr id="mem9"></tr>
</tbody></table></body></html>"#;

fn describe(members: &[Member]) -> Vec<(String, String, bool)> {
    members.iter().map(|m| (m.id.clone(), m.name.clone(), m.certified)).collect()
}

#[test]
fn the_list_of_patients_is_read() {
    let members = parse_members("https://user.91160.com/member.html", MEMBERS);
    assert_eq!(
        describe(&members),
        vec![
            ("101".to_string(), "张三".to_string(), true),
            ("102".to_string(), "李四".to_string(), false),
            ("7".to_string(), String::new(), false),
        ]
    );
}

#[test]
fn the_login_page_yields_no_patients() {
    assert!(parse_members("https://user.91160.com/LOGIN.html", MEMBERS).is_empty());
    let asks = MEMBERS.replace("李四", "请登录");
    assert!(parse_members("https://user.91160.com/member.html", &asks).is_empty());
    assert!(is_login_page("https://x/Login", ""));
    assert!(is_login_page("https://x/", "请先登录"));
    assert!(!is_login_page("https://x/", "members"));
}

#[test]
fn the_session_is_judged() {
    let one = vec![Member { id: "1".into(), name: "n".into(), certified: false }];
    assert!(login_verdict(true, None));
    assert!(login_verdict(false, Some(&one)));
    assert!(!login_verdict(false, Some(&Vec::new())));
    assert!(!login_verdict(false, None));
}

#[test]
fn city_addresses() {
    assert_eq!(city_or_default(""), "5");
    assert_eq!(city_or_default("2918"), "2918");
    assert_eq!(city_origin("sz"), "https://sz.91160.com");
    assert_eq!(city_origin(""), "https://www.91160.com");
    assert_eq!(city_referer("gz"), "https://gz.91160.com/");
    assert_eq!(departments_url(""), "https://www.91160.com/ajax/getdepbyunit.html");
    assert_eq!(departments_url("sz"), "https://sz.91160.com/ajax/getdepbyunit.html");
}

#[test]
fn the_server_s_time_is_read_from_the_date_header() {
    assert_eq!(server_time_millis(Some("Wed, 18 Feb 2015 23:16:09 GMT"), 7), 1_424_301_369_000);
    assert_eq!(server_time_millis(Some("Thu, 01 Jan 1970 08:00:01 +0800"), 7), 1_000);
    assert_eq!(server_time_millis(Some("yesterday"), 7), 7);
    assert_eq!(server_time_millis(None, -3), -3);
}
