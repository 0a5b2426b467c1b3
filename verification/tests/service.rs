use minerva_lite::config::Config;
use minerva_lite::controller::cliente as controller;
use minerva_lite::erro::{Code, Erro, Status};
use minerva_lite::model::cliente::{Cliente, NovoCliente};
use minerva_lite::proto::{ClienteResponse, IdClienteRequest, NovoClienteRequest};
use minerva_lite::service::clientes::{cadastra, consulta, deleta, lista};
use minerva_lite::service::stream::{Action, State};

/// The row that a store keeps for `dados` under the id `id`.
fn linha(id: i32, dados: NovoCliente) -> Cliente {
    Cliente {
        id,
        tipo: dados.tipo,
        nome: dados.nome,
        pj: dados.pj,
        docto: dados.docto,
        ativo: dados.ativo,
        bloqueado: dados.bloqueado,
    }
}

fn pedido() -> NovoClienteRequest {
    NovoClienteRequest {
        nome: "Fulano de Tal".to_string(),
        pj: false,
        docto: "888.888.888-88".to_string(),
    }
}

#[test]
fn registration_answers_with_the_new_row() {
    let r = cadastra(Ok(linha(17, NovoCliente::from(pedido()))));
    assert_eq!(
        r,
        Ok(ClienteResponse {
            id: 17,
            tipo: 0,
            nome: "Fulano de Tal".to_string(),
            pj: false,
            docto: "888.888.888-88".to_string(),
            ativo: true,
            bloqueado: false,
        })
    );
}

#[test]
fn refused_registration_is_an_invalid_argument() {
    let r = cadastra(Err(Erro::ConstraintViolation));
    assert_eq!(r, Err(Status::invalid_argument("Usuário não cadastrado")));
}

#[test]
fn registration_over_lost_connection_is_an_invalid_argument() {
    let r = cadastra(Err(Erro::ConnectionLost));
    assert_eq!(r.unwrap_err().code, Code::InvalidArgument);
}

#[test]
fn registration_without_connection_is_internal() {
    for e in [Erro::PoolExhausted, Erro::ConnectFailed] {
        assert_eq!(
            cadastra(Err(e)),
            Err(Status::internal("Impossível conectar ao banco de dados"))
        );
    }
}

#[test]
fn lookup_after_registration_gives_the_same_customer() {
    let guardada = linha(3, NovoCliente::from(pedido()));
    let criado = cadastra(Ok(guardada.clone())).unwrap();
    let lido = consulta(controller::consulta(vec![guardada])).unwrap();
    assert_eq!(lido, criado);
    assert_eq!(lido.id, 3);
    assert_eq!(lido.nome, pedido().nome);
    assert_eq!(lido.pj, pedido().pj);
    assert_eq!(lido.docto, pedido().docto);
    assert_eq!(lido.tipo, 0);
    assert!(lido.ativo);
    assert!(!lido.bloqueado);
}

#[test]
fn lookup_of_missing_customer_is_not_found() {
    let r = consulta(controller::consulta(Vec::new()));
    assert_eq!(r, Err(Status::not_found("Usuário não encontrado")));
}

#[test]
fn lookup_over_lost_connection_is_not_found() {
    assert_eq!(consulta(Err(Erro::ConnectionLost)).unwrap_err().code, Code::NotFound);
}

#[test]
fn lookup_without_connection_is_internal() {
    for e in [Erro::PoolExhausted, Erro::ConnectFailed] {
        assert_eq!(consulta(Err(e)).unwrap_err().code, Code::Internal);
    }
}

#[test]
fn removal_then_lookup_is_not_found_and_second_removal_succeeds() {
    let id = IdClienteRequest { id: 8 };
    let mut tabela = vec![linha(id.id, NovoCliente::from(pedido()))];
    let antes = tabela.len();
    tabela.retain(|c| c.id != id.id);
    assert_eq!(deleta(controller::remove(antes - tabela.len())), Ok(()));
    let achadas: Vec<Cliente> = tabela.iter().filter(|c| c.id == id.id).cloned().collect();
    assert_eq!(consulta(controller::consulta(achadas)).unwrap_err().code, Code::NotFound);
    let antes = tabela.len();
    tabela.retain(|c| c.id != id.id);
    assert_eq!(antes - tabela.len(), 0);
    assert_eq!(deleta(controller::remove(0)), Ok(()));
}

#[test]
fn removal_over_lost_connection_is_internal() {
    assert_eq!(
        deleta(Err(Erro::ConnectionLost)),
        Err(Status::internal("Impossível conectar ao banco de dados"))
    );
}

#[test]
fn failed_removal_is_never_not_found() {
    for e in [
        Erro::NotFound,
        Erro::ConstraintViolation,
        Erro::ConnectionLost,
        Erro::PoolExhausted,
        Erro::ConnectFailed,
    ] {
        assert_ne!(deleta(Err(e)).unwrap_err().code, Code::NotFound);
    }
}

#[test]
fn removal_without_connection_is_internal() {
    for e in [Erro::PoolExhausted, Erro::ConnectFailed] {
        assert_eq!(deleta(Err(e)).unwrap_err().code, Code::Internal);
    }
}

#[test]
fn listing_request_starts_a_fresh_session() {
    let (s, a) = lista(&Config::default());
    assert_eq!(a, Action::Acquire);
    assert_eq!(s.state(), State::Fetching { lease: false });
    assert_eq!(s.cursor(), 0);
}
