use minerva_lite::client::{
    descreve_cliente, gera_clientes, plano_cadastro, sorteia_cadastros, sorteia_consultas,
    sorteia_testes, Contagem,
};
use minerva_lite::erro::Status;
use minerva_lite::proto::{ClientePageResponse, ClienteResponse, NovoClienteRequest};

fn esperados() -> Vec<NovoClienteRequest> {
    [
        ("Beltrano de Souza", false, "999.999.999-99"),
        ("Fulano de Tal", false, "888.888.888-88"),
        ("Empresa S/A", true, "99.999.999/9999-99"),
        ("Ciclano da Silva", false, "777.777.777-77"),
        ("Outra Empresa LTDA", true, "99.999.999/9999-99"),
    ]
    .iter()
    .map(|(nome, pj, docto)| NovoClienteRequest {
        nome: nome.to_string(),
        pj: *pj,
        docto: docto.to_string(),
    })
    .collect()
}

#[test]
fn trial_customers_are_the_five_documented() {
    assert_eq!(gera_clientes(), esperados());
}

#[test]
fn number_of_trials_is_drawn_from_15_to_49() {
    let mut vistos = Vec::new();
    for _ in 0..2000 {
        let n = sorteia_testes();
        assert!((15..50).contains(&n));
        if !vistos.contains(&n) {
            vistos.push(n);
        }
    }
    assert!(vistos.len() > 1, "2000 draws gave one number only");
}

#[test]
fn plan_of_no_round_is_empty() {
    assert!(plano_cadastro(0).is_empty());
}

#[test]
fn plan_of_one_round_is_the_five_customers() {
    assert_eq!(plano_cadastro(1), esperados());
}

#[test]
fn plan_of_three_rounds_repeats_the_five_in_order() {
    let p = plano_cadastro(3);
    assert_eq!(p.len(), 15);
    let e = esperados();
    for (i, c) in p.iter().enumerate() {
        assert_eq!(*c, e[i % 5]);
    }
}

#[test]
fn random_plan_has_between_1_and_49_rounds() {
    let mut vistos = Vec::new();
    let e = esperados();
    for _ in 0..300 {
        let p = sorteia_cadastros();
        assert_eq!(p.len() % 5, 0);
        assert!(5 <= p.len() && p.len() <= 245);
        for (i, c) in p.iter().enumerate() {
            assert_eq!(*c, e[i % 5]);
        }
        if !vistos.contains(&p.len()) {
            vistos.push(p.len());
        }
    }
    assert!(vistos.len() > 1, "300 draws gave one length only");
}

#[test]
fn lookups_are_drawn_from_the_registered_ids() {
    let cadastrados = vec![10, 20, 30, 40, 50, 60, 70];
    let mut vistos = Vec::new();
    let mut tamanhos = Vec::new();
    for _ in 0..500 {
        let ids = sorteia_consultas(&cadastrados);
        assert!(1 <= ids.len() && ids.len() < cadastrados.len());
        for id in &ids {
            assert!(cadastrados.contains(id));
            if !vistos.contains(id) {
                vistos.push(*id);
            }
        }
        if !tamanhos.contains(&ids.len()) {
            tamanhos.push(ids.len());
        }
    }
    assert!(vistos.len() > 1, "500 draws gave one id only");
    assert!(tamanhos.len() > 1, "500 draws gave one length only");
}

#[test]
fn lookups_of_two_registered_ids_are_one_lookup() {
    for _ in 0..50 {
        let ids = sorteia_consultas(&vec![4, 9]);
        assert_eq!(ids.len(), 1);
        assert!(ids[0] == 4 || ids[0] == 9);
    }
}

#[test]
fn lookups_may_repeat_an_id() {
    let ids = sorteia_consultas(&vec![5, 5, 5, 5]);
    assert!(ids.iter().all(|i| *i == 5));
}

#[test]
fn customer_is_shown_on_five_lines() {
    let c = ClienteResponse {
        id: 12,
        tipo: 0,
        nome: "Empresa S/A".to_string(),
        pj: true,
        docto: "99.999.999/9999-99".to_string(),
        ativo: true,
        bloqueado: false,
    };
    assert_eq!(
        descreve_cliente(&c),
        "ID: 12\nTipo: 0\nNome: Empresa S/A\nPessoa jurídica? true\nDocumento: 99.999.999/9999-99\n"
    );
}

#[test]
fn customer_with_negative_numbers_and_no_text_is_shown() {
    let c = ClienteResponse {
        id: i32::MIN,
        tipo: -7,
        nome: String::new(),
        pj: false,
        docto: String::new(),
        ativo: false,
        bloqueado: true,
    };
    assert_eq!(
        descreve_cliente(&c),
        "ID: -2147483648\nTipo: -7\nNome: \nPessoa jurídica? false\nDocumento: \n"
    );
}

fn pagina(n: usize) -> ClientePageResponse {
    let c = ClienteResponse {
        id: 1,
        tipo: 0,
        nome: String::new(),
        pj: false,
        docto: String::new(),
        ativo: true,
        bloqueado: false,
    };
    ClientePageResponse { clientes: vec![c; n] }
}

#[test]
fn count_starts_at_zero() {
    assert_eq!(Contagem::new(), Contagem { paginas: 0, clientes: 0 });
}

#[test]
fn count_adds_pages_and_customers() {
    let mut c = Contagem::new();
    assert!(c.registra(&Ok(pagina(100))));
    assert!(c.registra(&Ok(pagina(100))));
    assert!(c.registra(&Ok(pagina(49))));
    assert_eq!(c, Contagem { paginas: 3, clientes: 249 });
}

#[test]
fn count_takes_an_empty_page_as_a_page() {
    let mut c = Contagem::new();
    assert!(c.registra(&Ok(pagina(0))));
    assert_eq!(c, Contagem { paginas: 1, clientes: 0 });
}

#[test]
fn count_stops_at_a_status_and_keeps_its_numbers() {
    let mut c = Contagem::new();
    assert!(c.registra(&Ok(pagina(7))));
    assert!(!c.registra(&Err(Status::internal("x"))));
    assert_eq!(c, Contagem { paginas: 1, clientes: 7 });
}

#[test]
fn count_stays_at_the_largest_number() {
    let mut c = Contagem { paginas: u64::MAX, clientes: u64::MAX - 3 };
    assert!(c.registra(&Ok(pagina(5))));
    assert_eq!(c, Contagem { paginas: u64::MAX, clientes: u64::MAX });
    let mut c = Contagem { paginas: u64::MAX - 1, clientes: u64::MAX - 5 };
    assert!(c.registra(&Ok(pagina(5))));
    assert_eq!(c, Contagem { paginas: u64::MAX, clientes: u64::MAX });
}
