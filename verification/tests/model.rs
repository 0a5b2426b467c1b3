use minerva_lite::config::Config;
use minerva_lite::model::cliente::{Cliente, NovoCliente};
use minerva_lite::proto::{ClientePageResponse, ClienteResponse, NovoClienteRequest};

fn cliente(id: i32, nome: &str) -> Cliente {
    Cliente {
        id,
        tipo: 0,
        nome: nome.to_string(),
        pj: false,
        docto: "123.456.789-00".to_string(),
        ativo: true,
        bloqueado: false,
    }
}

#[test]
fn response_carries_every_field_of_the_row() {
    let c = Cliente {
        id: 42,
        tipo: 7,
        nome: "Empresa S/A".to_string(),
        pj: true,
        docto: "99.999.999/9999-99".to_string(),
        ativo: false,
        bloqueado: true,
    };
    let r = ClienteResponse::from(c);
    assert_eq!(
        r,
        ClienteResponse {
            id: 42,
            tipo: 7,
            nome: "Empresa S/A".to_string(),
            pj: true,
            docto: "99.999.999/9999-99".to_string(),
            ativo: false,
            bloqueado: true,
        }
    );
}

#[test]
fn response_widens_the_kind_without_changing_it() {
    let mut c = cliente(1, "a");
    c.tipo = i16::MIN;
    assert_eq!(ClienteResponse::from(c).tipo, -32768);
    let mut c = cliente(1, "a");
    c.tipo = i16::MAX;
    assert_eq!(ClienteResponse::from(c).tipo, 32767);
}

#[test]
fn response_keeps_extreme_ids() {
    assert_eq!(ClienteResponse::from(cliente(i32::MAX, "a")).id, i32::MAX);
    assert_eq!(ClienteResponse::from(cliente(i32::MIN, "a")).id, i32::MIN);
}

#[test]
fn into_gives_the_same_response_as_from() {
    let r: ClienteResponse = cliente(5, "Fulano de Tal").into();
    assert_eq!(r, ClienteResponse::from(cliente(5, "Fulano de Tal")));
}

#[test]
fn new_customer_takes_request_and_defaults() {
    let req = NovoClienteRequest {
        nome: "Beltrano de Souza".to_string(),
        pj: false,
        docto: "999.999.999-99".to_string(),
    };
    let n = NovoCliente::from(req);
    assert_eq!(
        n,
        NovoCliente {
            tipo: 0,
            nome: "Beltrano de Souza".to_string(),
            pj: false,
            docto: "999.999.999-99".to_string(),
            ativo: true,
            bloqueado: false,
        }
    );
}

#[test]
fn new_customer_keeps_company_flag() {
    let req = NovoClienteRequest {
        nome: "Outra Empresa LTDA".to_string(),
        pj: true,
        docto: "99.999.999/9999-99".to_string(),
    };
    let n = NovoCliente::from(req);
    assert!(n.pj);
    assert!(n.ativo);
    assert!(!n.bloqueado);
    assert_eq!(n.tipo, 0);
}

#[test]
fn new_customer_from_empty_request() {
    let req = NovoClienteRequest { nome: String::new(), pj: false, docto: String::new() };
    let n = NovoCliente::from(req);
    assert_eq!(n.nome, "");
    assert_eq!(n.docto, "");
    assert!(n.ativo);
}

#[test]
fn default_new_customer_is_blank_and_inactive() {
    let n = NovoCliente::default();
    assert_eq!(
        n,
        NovoCliente {
            tipo: 0,
            nome: String::new(),
            pj: false,
            docto: String::new(),
            ativo: false,
            bloqueado: false,
        }
    );
}

#[test]
fn clone_of_row_equals_row() {
    let c = cliente(9, "Ciclano da Silva");
    let d = c.clone();
    assert_eq!(c, d);
    let r = ClienteResponse::from(c);
    assert_eq!(r.clone(), r);
}

#[test]
fn clone_of_request_equals_request() {
    let req = NovoClienteRequest { nome: "n".to_string(), pj: true, docto: "d".to_string() };
    assert_eq!(req.clone(), req);
}

#[test]
fn page_of_rows_keeps_order_and_content() {
    let rows = vec![cliente(2, "b"), cliente(3, "c"), cliente(5, "e")];
    let p = ClientePageResponse::de(&rows);
    assert_eq!(p.clientes.len(), 3);
    assert_eq!(p.clientes[0], ClienteResponse::from(cliente(2, "b")));
    assert_eq!(p.clientes[1], ClienteResponse::from(cliente(3, "c")));
    assert_eq!(p.clientes[2], ClienteResponse::from(cliente(5, "e")));
}

#[test]
fn page_of_no_rows_is_empty() {
    let p = ClientePageResponse::de(&Vec::new());
    assert!(p.clientes.is_empty());
}

#[test]
fn default_config_has_documented_limits() {
    let c = Config::default();
    assert_eq!(c.pool_size(), 15);
    assert_eq!(c.page_size(), 100);
    assert_eq!(c.channel_capacity(), 128);
}

#[test]
fn default_config_matches_named_constants() {
    let c = Config::default();
    assert_eq!(c.pool_size(), minerva_lite::service::db::MAX_DATABASE_CONNECTIONS);
    assert_eq!(c.page_size(), minerva_lite::controller::cliente::CLIENTE_PAGE_SIZE);
    assert_eq!(c.channel_capacity(), minerva_lite::service::stream::CHANNEL_CAPACITY);
}

#[test]
fn config_keeps_given_limits() {
    let c = Config::new(3, 7, 2).unwrap();
    assert_eq!(c.pool_size(), 3);
    assert_eq!(c.page_size(), 7);
    assert_eq!(c.channel_capacity(), 2);
}

#[test]
fn config_accepts_smallest_limits() {
    let c = Config::new(1, 1, 1).unwrap();
    assert_eq!((c.pool_size(), c.page_size(), c.channel_capacity()), (1, 1, 1));
}

#[test]
fn config_accepts_largest_limits() {
    let c = Config::new(u32::MAX, i64::MAX, usize::MAX).unwrap();
    assert_eq!(c.pool_size(), u32::MAX);
    assert_eq!(c.page_size(), i64::MAX);
    assert_eq!(c.channel_capacity(), usize::MAX);
}

#[test]
fn config_rejects_empty_pool() {
    assert!(Config::new(0, 100, 128).is_none());
}

#[test]
fn config_rejects_page_size_below_one() {
    assert!(Config::new(15, 0, 128).is_none());
    assert!(Config::new(15, -1, 128).is_none());
    assert!(Config::new(15, i64::MIN, 128).is_none());
}

#[test]
fn config_rejects_channel_without_room() {
    assert!(Config::new(15, 100, 0).is_none());
}
