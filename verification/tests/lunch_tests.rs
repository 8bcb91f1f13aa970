use lunch_menu::lunch::Building;
use lunch_menu::lunch::Lunch;
use lunch_menu::lunch::LunchError;
use lunch_menu::lunch::lunch_from_page;
use lunch_menu::lunch::scrape_lunch;
use lunch_menu::mattermost::MattermostCommandResponse;
use lunch_menu::mattermost::MattermostResponseType;
use lunch_menu::text::trim_str;

const VARM_RET_ROW: &str =
    "<div class=\"menu-row\"><div>Varm ret</div><div>\n  Braiseret svinek\u{e6}ber med rodfrugter\n  </div></div>";
const VEGETAR_ROW: &str =
    "<div class=\"menu-row\"><div>Vegetar</div><div> Gnocchi med ratatouille. </div></div>";
const SALAT_ROW: &str =
    "<div class=\"menu-row\"><div>Salat</div><div>Romaine salat med bagte blommer, hvedekerner, l\u{f8}g og salatost.</div></div>";
const SPACER: &str = "<div class=\"menu-spacer\"></div>";

/// A page shaped like the upstream menu page: inside one container, the three
/// menu rows stand as its 2nd, 4th and 6th children.
fn fixture_page(varm_ret_row: &str, vegetar_row: &str, salat_row: &str) -> String {
    format!(
        "<html><body><div class=\"menu\">\
         <div class=\"menu-header\"><div>Dag</div><div>Menu</div></div>\
         {varm_ret_row}{SPACER}{vegetar_row}{SPACER}{salat_row}\
         </div></body></html>"
    )
}

#[test]
fn lunch_to_markdown() {
    let lunch = Lunch {
        varm_ret: "Luftb\u{f8}ffer".to_owned(),
        vegetar: "M\u{e6}lkeb\u{f8}tter".to_owned(),
        salat: "Gulerod".to_owned(),
    };

    let markdown = lunch_menu::lunch::lunch_to_markdown(&lunch);
    let expected =
        "##### Varm ret\n  Luftb\u{f8}ffer\n##### Vegetar\n  M\u{e6}lkeb\u{f8}tter\n##### Salat\n  Gulerod";
    assert_eq!(expected.to_owned(), markdown.0)
}

#[test]
fn render_round_trip() {
    let lunch = Lunch {
        varm_ret: "A".to_owned(),
        vegetar: "B".to_owned(),
        salat: "C".to_owned(),
    };
    let markdown = lunch_menu::lunch::lunch_to_markdown(&lunch);
    assert_eq!(markdown.0, "##### Varm ret\n  A\n##### Vegetar\n  B\n##### Salat\n  C");
}

#[test]
fn render_empty_fields() {
    let lunch = Lunch {
        varm_ret: String::new(),
        vegetar: String::new(),
        salat: String::new(),
    };
    let markdown = lunch_menu::lunch::lunch_to_markdown(&lunch);
    assert_eq!(markdown.0, "##### Varm ret\n  \n##### Vegetar\n  \n##### Salat\n  ");
}

#[test]
fn scrape_lunch_fixture() {
    let page = fixture_page(VARM_RET_ROW, VEGETAR_ROW, SALAT_ROW);

    let result = scrape_lunch(&page).unwrap();

    assert_eq!(result.varm_ret, "Braiseret svinek\u{e6}ber med rodfrugter");
    assert_eq!(result.vegetar, "Gnocchi med ratatouille.");
    assert_eq!(
        result.salat,
        "Romaine salat med bagte blommer, hvedekerner, l\u{f8}g og salatost."
    );
}

#[test]
fn scrape_lunch_missing_varm_ret() {
    let page = fixture_page(SPACER, VEGETAR_ROW, SALAT_ROW);
    assert_eq!(scrape_lunch(&page).unwrap_err(), LunchError::Extraction);
}

#[test]
fn scrape_lunch_missing_vegetar() {
    let page = fixture_page(VARM_RET_ROW, SPACER, SALAT_ROW);
    assert_eq!(scrape_lunch(&page).unwrap_err(), LunchError::Extraction);
}

#[test]
fn scrape_lunch_missing_salat() {
    let page = fixture_page(VARM_RET_ROW, VEGETAR_ROW, SPACER);
    assert_eq!(scrape_lunch(&page).unwrap_err(), LunchError::Extraction);
}

#[test]
fn scrape_lunch_blank_field() {
    let blank_row = "<div class=\"menu-row\"><div>Vegetar</div><div>   \n </div></div>";
    let page = fixture_page(VARM_RET_ROW, blank_row, SALAT_ROW);
    assert_eq!(scrape_lunch(&page).unwrap_err(), LunchError::Extraction);
}

#[test]
fn building_parse_case_insensitive() {
    let lower = Building::parse("aastvej").unwrap();
    let mixed = Building::parse("Aastvej").unwrap();
    let upper = Building::parse("AASTVEJ").unwrap();
    assert_eq!(lower, Building::Aastvej);
    assert_eq!(mixed, Building::Aastvej);
    assert_eq!(upper, Building::Aastvej);
    assert_eq!(lower.resolve(), mixed.resolve());
    assert_eq!(mixed.resolve(), upper.resolve());
}

#[test]
fn building_parse_unknown() {
    assert!(Building::parse("nowhere").is_none());
    assert!(Building::parse("").is_none());
    assert!(Building::parse("aastvej ").is_none());
}

#[test]
fn building_resolve_urls() {
    assert_eq!(
        Building::Aastvej.resolve(),
        "https://lego.isscatering.dk/aastvej"
    );
    assert_eq!(
        Building::KIRKBI.resolve(),
        "https://lego.isscatering.dk/kloeverblomsten-kirkbi"
    );
    assert_eq!(
        Building::Oestergade.resolve(),
        "https://lego.isscatering.dk/kantine-oestergade"
    );
}

#[test]
fn end_to_end_payload() {
    let page = fixture_page(VARM_RET_ROW, VEGETAR_ROW, SALAT_ROW);

    let markdown = lunch_from_page(&page).unwrap();
    let response = MattermostCommandResponse::in_channel(markdown);

    assert_eq!(response.response_type, MattermostResponseType::InChannel);
    assert_eq!(
        response.text,
        "##### Varm ret\n  Braiseret svinek\u{e6}ber med rodfrugter\
         \n##### Vegetar\n  Gnocchi med ratatouille.\
         \n##### Salat\n  Romaine salat med bagte blommer, hvedekerner, l\u{f8}g og salatost."
    );
}

#[test]
fn ephemeral_payload() {
    let lunch = Lunch {
        varm_ret: "A".to_owned(),
        vegetar: "B".to_owned(),
        salat: "C".to_owned(),
    };
    let response = MattermostCommandResponse::ephemeral(lunch_menu::lunch::lunch_to_markdown(&lunch));
    assert_eq!(response.response_type, MattermostResponseType::Ephemeral);
    assert_eq!(response.text, "##### Varm ret\n  A\n##### Vegetar\n  B\n##### Salat\n  C");
}

#[test]
fn trim_str_test() {
    assert_eq!(trim_str("  spaced out \n"), "spaced out");
    assert_eq!(trim_str("\u{a0}\t nbsp too \u{a0}"), "nbsp too");
    assert_eq!(trim_str("untouched"), "untouched");
    assert_eq!(trim_str(" \n\t "), "");
}
