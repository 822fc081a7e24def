//! The sidebar, keyboard shortcuts and unread counter injected into every
//! view.
//!
//! The script is split in two: `runtime_script` is the machinery, injected
//! once when a view is created and told which view it is; `state_script` is
//! the data, sent again by `eval` whenever the accounts, the theme or the
//! counts change.
use vstd::prelude::*;
use crate::config::model::Account;
use crate::json::{json_quoted, quoted_or};
use crate::shell::{count_of, joined, Unread};
use crate::text::{chars_of, decimal, decimal_string, push_str, views, words, words_of};

verus! {

/// Width of the sidebar in CSS pixels.
pub const WIDTH: u32 = 60;

/// What `char::to_uppercase` yields for a character: its Unicode upper-case
/// mapping, one or more characters.
pub uninterp spec fn upper_mapping(c: char) -> Seq<char>;

/// Calls `char::to_uppercase` and collects the characters it yields.
#[verifier::external_body]
fn to_upper(c: char) -> (r: String)
    ensures
        r@ == upper_mapping(c),
{
    c.to_uppercase().collect()
}

/// The letters of an avatar: the upper-case form of the first character of
/// each of the first two words of the name, or `?` when there are none.
pub open spec fn initials_of(name: Seq<char>) -> Seq<char> {
    let ws = words(name);
    let letters = if ws.len() == 0 {
        Seq::<char>::empty()
    } else if ws.len() == 1 {
        upper_mapping(ws[0][0])
    } else {
        upper_mapping(ws[0][0]) + upper_mapping(ws[1][0])
    };
    if letters.len() == 0 {
        seq!['?']
    } else {
        letters
    }
}

/// The letters shown in the avatar of an account.
pub fn initials(name: &str) -> (s: String)
    ensures
        s@ == initials_of(name@),
{
    let v = chars_of(name);
    let ws = words_of(&v);
    proof {
        crate::text::lemma_words_nonempty(v@);
        if ws@.len() > 0 {
            assert(views(ws@)[0] == ws@[0]@);
        }
        if ws@.len() > 1 {
            assert(views(ws@)[1] == ws@[1]@);
        }
    }
    let mut letters = String::new();
    if ws.len() > 0 {
        let a = to_upper(ws[0][0]);
        push_str(&mut letters, a.as_str());
        if ws.len() > 1 {
            let b = to_upper(ws[1][0]);
            push_str(&mut letters, b.as_str());
        }
    }
    let ghost ws_spec = words(name@);
    assert(letters@ =~= (if ws_spec.len() == 0 {
        Seq::<char>::empty()
    } else if ws_spec.len() == 1 {
        upper_mapping(ws_spec[0][0])
    } else {
        upper_mapping(ws_spec[0][0]) + upper_mapping(ws_spec[1][0])
    }));
    if letters.as_str().is_empty() {
        proof {
            reveal_strlit("?");
        }
        String::from_str("?")
    } else {
        letters
    }
}

/// One account as the sidebar's page script reads it, with the keys in the
/// order `serde_json` writes an object's keys.
pub open spec fn rail_item(a: Account, unread: Map<Seq<char>, u32>) -> Seq<char> {
    "{\"id\":"@ + json_quoted(a.id@) + ",\"initials\":"@ + json_quoted(initials_of(a.name@))
        + ",\"name\":"@ + json_quoted(a.name@) + ",\"unread\":"@ + decimal(count_of(unread, a.id@))
        + "}"@
}

/// The accounts, in order, as the sidebar reads them.
pub open spec fn rail_items(accounts: Seq<Account>, unread: Map<Seq<char>, u32>) -> Seq<Seq<char>> {
    accounts.map_values(|a: Account| rail_item(a, unread))
}

/// The sidebar's data as a compact JSON object.
pub open spec fn rail_state_json(
    accounts: Seq<Account>,
    active: Seq<char>,
    dark: bool,
    unread: Map<Seq<char>, u32>,
) -> Seq<char> {
    "{\"accounts\":["@ + joined(rail_items(accounts, unread), ","@) + "],\"active\":"@ + json_quoted(active)
        + ",\"dark\":"@ + (if dark {
        "true"@
    } else {
        "false"@
    }) + ",\"width\":"@ + decimal(WIDTH as nat) + "}"@
}

/// The script that hands the data to the sidebar and redraws it.
pub open spec fn state_text(
    accounts: Seq<Account>,
    active: Seq<char>,
    dark: bool,
    unread: Map<Seq<char>, u32>,
) -> Seq<char> {
    "window.__wruspState = "@ + rail_state_json(accounts, active, dark, unread)
        + "; window.__wruspRender && window.__wruspRender();"@
}

/// One account of the sidebar's data.
fn item_json(a: &Account, unread: &Unread) -> (s: String)
    ensures
        s@ == rail_item(*a, unread.view()),
{
    let n = match unread.get(a.id.as_str()) {
        Some(n) => n,
        None => 0,
    };
    let mut s = String::from_str("{\"id\":");
    let q = quoted_or(a.id.as_str(), "\"\"");
    push_str(&mut s, q.as_str());
    push_str(&mut s, ",\"initials\":");
    let ini = initials(a.name.as_str());
    let q = quoted_or(ini.as_str(), "\"\"");
    push_str(&mut s, q.as_str());
    push_str(&mut s, ",\"name\":");
    let q = quoted_or(a.name.as_str(), "\"\"");
    push_str(&mut s, q.as_str());
    push_str(&mut s, ",\"unread\":");
    let d = decimal_string(n as u128);
    push_str(&mut s, d.as_str());
    push_str(&mut s, "}");
    s
}

/// The data of the sidebar, evaluated in every view each time it changes:
/// the accounts with their initials and unread counts, the view on screen,
/// the theme and the width.
pub fn state_script(accounts: &Vec<Account>, active: &str, dark: bool, unread: &Unread) -> (s: String)
    ensures
        s@ == state_text(accounts@, active@, dark, unread.view()),
{
    let mut s = String::from_str("window.__wruspState = ");
    push_str(&mut s, "{\"accounts\":[");
    let ghost start = s@;
    let ghost items = rail_items(accounts@, unread.view());
    let mut i: usize = 0;
    while i < accounts.len()
        invariant
            i <= accounts@.len(),
            items == rail_items(accounts@, unread.view()),
            s@ == start + joined(items.take(i as int), ","@),
        decreases accounts.len() - i,
    {
        let item = item_json(&accounts[i], unread);
        proof {
            assert(items.take(i + 1).drop_last() =~= items.take(i as int));
            assert(items.take(i + 1).last() == items[i as int]);
            assert(items[i as int] == rail_item(accounts@[i as int], unread.view()));
        }
        if i > 0 {
            push_str(&mut s, ",");
        }
        push_str(&mut s, item.as_str());
        proof {
            if i == 0 {
                assert(items.take(1) =~= seq![items[0]]);
            }
        }
        i = i + 1;
    }
    assert(items.take(accounts@.len() as int) =~= items);
    push_str(&mut s, "],\"active\":");
    let q = quoted_or(active, "\"\"");
    push_str(&mut s, q.as_str());
    push_str(&mut s, ",\"dark\":");
    push_str(&mut s, if dark {
        "true"
    } else {
        "false"
    });
    push_str(&mut s, ",\"width\":");
    let w = decimal_string(WIDTH as u128);
    push_str(&mut s, w.as_str());
    push_str(&mut s, "}");
    push_str(&mut s, "; window.__wruspRender && window.__wruspRender();");
    s
}

/// The sidebar's machinery, up to where the view's own name goes.
pub const RUNTIME_HEAD: &'static str = r#"(function () {
  if (window.__wruspReady) return;
  window.__wruspReady = true;
  window.__wruspSelf = "#;

pub const RUNTIME_TAIL_0: &'static str = r#";

  // Las órdenes viajan como petición de red al esquema propio `wrusp://`, no
  // como navegación: dos navegaciones en el mismo instante se pisan y se
  // perdían avisos (notificación y contador llegan juntos). Si el esquema no
  // estuviera disponible, se recurre a la navegación, que Rust también
  // intercepta.
  const go = (path) => {
    const url = 'wrusp://' + path;
    try {
      fetch(url, { method: 'POST', mode: 'cors', keepalive: true }).catch(() => {
        window.location.href = url;
      });
    } catch (e) {
      window.location.href = url;
    }
  };
  const st = () => window.__wruspState || { accounts: [], active: '', dark: false, width: 60 };

  // ── Barra lateral ───────────────────────────────────────────
  function ensureStyle() {
    const s = st();
    let style = document.getElementById('wrusp-rail-style');
    if (!style) {
      style = document.createElement('style');
      style.id = 'wrusp-rail-style';
      (document.head || document.documentElement).appendChild(style);
    }
    style.textContent = `
      #wrusp-rail {
        position: fixed; top: 0; left: 0; bottom: 0; width: ${s.width}px;
        z-index: 2147483647;
        background: ${s.dark ? '#10151a' : '#ededed'};
        border-right: 1px solid ${s.dark ? '#2b343d' : '#d8dcdb'};
        display: flex; flex-direction: column; align-items: center;
        gap: 8px; padding: 10px 0;
        font-family: system-ui, -apple-system, 'Segoe UI', sans-serif;
        box-sizing: border-box; overflow-y: auto; overflow-x: hidden;
      }
      #wrusp-rail::-webkit-scrollbar { width: 0; }
      .wrusp-btn {
        position: relative;
        width: 40px; height: 40px; flex: 0 0 40px; border-radius: 50%;
        border: 2px solid transparent; cursor: pointer; display: flex;
        align-items: center; justify-content: center;
        font-size: 14px; font-weight: 700; padding: 0;
        background: ${s.dark ? '#1a2129' : '#ffffff'};
        color: ${s.dark ? '#e6ebe8' : '#3b4a42'};
        transition: border-color .12s, transform .12s;
      }
      .wrusp-btn:hover { transform: scale(1.06); }
      .wrusp-btn.active { border-color: #f46623; }
      .wrusp-badge {
        position: absolute; top: -3px; right: -3px; min-width: 17px; height: 17px;
        border-radius: 9px; background: #f46623; color: #fff;
        font-size: 10px; line-height: 17px; font-weight: 700;
        padding: 0 4px; box-sizing: border-box;
      }
      .wrusp-sep { flex: 1 1 auto; }
      /* Deja hueco a la barra sin depender del maquetado de WhatsApp: si el
         selector de su raíz cambiara, la barra solo taparía ese margen. */
      html { box-sizing: border-box; }
      body { padding-left: ${s.width}px !important; box-sizing: border-box !important; }
      #app { left: ${s.width}px !important; width: calc(100vw - ${s.width}px) !important; }
    `;
  }

  function button(label, title, onClick, active, badge) {
    const b = document.createElement('button');
    b.className = 'wrusp-btn' + (active ? ' active' : '');
    b.textContent = label;
    b.title = title;
    b.addEventListener('click', onClick);
    if (badge) {
      const n = document.createElement('span');
      n.className = 'wrusp-badge';
      n.textContent = badge > 99 ? '99+' : String(badge);
      b.appendChild(n);
    }
    return b;
  }

  function render() {
    const s = st();
    ensureStyle();
    let rail = document.getElementById('wrusp-rail');
    if (!rail) {
      rail = document.createElement('div');
      rail.id = 'wrusp-rail';
      // Cuelga de <html>, no de <body>: WhatsApp reescribe el body al
      // renderizar y se llevaría la barra por delante.
      document.documentElement.appendChild(rail);
    }
    rail.replaceChildren();

    s.accounts.forEach((acc, i) => {
      const title = acc.name + (i < 9 ? '  (Ctrl+' + (i + 1) + ')' : '');
      rail.appendChild(
"#;

pub const RUNTIME_TAIL_1: &'static str = r#"        button(acc.initials, title, () => go('switch/' + acc.id), acc.id === s.active, acc.unread)
      );
    });
    rail.appendChild(button('+', 'Añadir cuenta  (Ctrl+U)', () => go('add')));
    const sep = document.createElement('div');
    sep.className = 'wrusp-sep';
    rail.appendChild(sep);
    rail.appendChild(
      button('⚙', 'Ajustes  (Ctrl+P)', () => go('settings'), s.active === 'settings')
    );
  }

  window.__wruspRender = render;

  // Este script corre ANTES de que exista el documento: en ese instante no hay
  // ni <html>, así que pintar aquí lanzaba un TypeError. Costó verlo, porque la
  // barra aparecía igual —el estado llega después por `eval` y vuelve a
  // pintarla—, pero el fallo dejaba a medias todo lo que va detrás.
  const arrancar = () => {
    render();
    // WhatsApp es una SPA y puede vaciar el árbol al arrancar; si la barra
    // desaparece, se vuelve a poner.
    new MutationObserver(() => {
      if (!document.getElementById('wrusp-rail')) render();
    }).observe(document.documentElement, { childList: true });
  };

  if (document.documentElement) {
    arrancar();
  } else {
    document.addEventListener('DOMContentLoaded', arrancar, { once: true });
  }

  // ── Capas a pantalla completa ───────────────────────────────
  // El hueco de la barra se abre con padding en `body` y ajustando `#app`,
  // pero las capas `position: fixed` se anclan al viewport y lo ignoran: el
  // visor de fotos quedaba con sus primeros 60 px debajo de la barra. Sus
  // clases cambian en cada despliegue, así que no hay selector del que fiarse:
  // se detectan por geometría —capa fija que cubre (casi) todo el viewport
  // pegada al borde izquierdo— y se les hace el mismo hueco. Los menús y
  // globos pequeños no pasan el filtro de tamaño y no se tocan.
  function corregirCapas() {
    const w = st().width;
    const cand = document.querySelectorAll(
      'body > *, body > * > *, #app > *, #app > * > *, [data-animate-media-viewer]'
    );
    for (const el of cand) {
      if (el.dataset.wruspAjustado) continue;
      if (el.id === 'wrusp-rail') continue;
      let cs;
      try { cs = getComputedStyle(el); } catch (e) { continue; }
      if (cs.position !== 'fixed') continue;
      const r = el.getBoundingClientRect();
      if (r.left > 1 || r.width < innerWidth * 0.9 || r.height < innerHeight * 0.85) continue;
      el.dataset.wruspAjustado = '1';
      el.style.setProperty('left', w + 'px', 'important');
      el.style.setProperty('width', 'calc(100vw - ' + w + 'px)', 'important');
    }
  }
  let correccionPendiente = false;
  const programarCorreccion = () => {
    if (correccionPendiente) return;
    correccionPendiente = true;
    requestAnimationFrame(() => {
      correccionPendiente = false;
      try { corregirCapas(); } catch (e) { /* mejor sin corrección que sin barra */ }
    });
  };
  const vigilarCapas = () => {
    if (!document.body) return;
    programarCorreccion();
    new MutationObserver(programarCorreccion).observe(document.body, {
      childList: true,
      subtree: true,
    });
  };
  if (document.body) vigilarCapas();
  else document.addEventListener('DOMContentLoaded', vigilarCapas, { once: true });

  // ── Atajos de teclado ───────────────────────────────────────
  // Se capturan en fase de captura porque WhatsApp Web se come muchas teclas.
  document.addEventListener('keydown', (ev) => {
    const ctrl = ev.ctrlKey || ev.metaKey;
    if (ev.key === 'F5') { ev.preventDefault(); location.reload(); return; }
    if (!ctrl) return;

    if (ev.key >= '1' && ev.key <= '9') {
      const acc = st().accounts[Number(ev.key) - 1];
      if (acc) { ev.preventDefault(); go('switch/' + acc.id); }
      return;
    }
    switch (ev.key.toLowerCase()) {
"#;

pub const RUNTIME_TAIL_2: &'static str = r#"      case 'p': ev.preventDefault(); go('settings'); break;
      case 'u': ev.preventDefault(); go('add'); break;
      case 'w': ev.preventDefault(); go('hide'); break;
      case 'q': ev.preventDefault(); go('quit'); break;
      case '+': case '=': ev.preventDefault(); go('zoom/in'); break;
      case '-': ev.preventDefault(); go('zoom/out'); break;
      case '0': ev.preventDefault(); go('zoom/reset'); break;
    }
  }, true);

  // ── Notificaciones ──────────────────────────────────────────
  // Las notificaciones **no** se interceptan aquí: las entrega WebKit por su
  // señal nativa, que cubre tanto las que nacen en la página como las del
  // service worker (la vía real de WhatsApp, a la que este script no llega).
  // Lo único que hace falta desde JavaScript es que la página crea que tiene
  // permiso, para que no se quede esperando a pedirlo.
  // El permiso no se puede falsear (`Notification.permission` es de solo
  // lectura) y, sin permiso real, WebKit descarta la notificación antes de
  // entregárnosla. Además
  // **exige un gesto del usuario**: pedirlo al cargar
  // devuelve «denied» sin llegar siquiera a consultar a la aplicación. Por eso
  // se pide en la primera interacción real; Rust lo concede sin preguntar, así
  // que el usuario no ve ningún diálogo.
  if (window.__wruspSelf !== 'settings' && window.Notification) {
    const quitar = () => {
      document.removeEventListener('click', pedirPermiso, true);
      document.removeEventListener('keydown', pedirPermiso, true);
    };
    const pedirPermiso = () => {
      try {
        if (Notification.permission !== 'default') { quitar(); return; }
        const r = Notification.requestPermission();
        if (r && r.then) {
          r.then(() => { if (Notification.permission !== 'default') quitar(); });
        }
      } catch (e) { quitar(); }
    };
    if (Notification.permission === 'default') {
      document.addEventListener('click', pedirPermiso, true);
      document.addEventListener('keydown', pedirPermiso, true);
    }
  }

  // ── Contador de no leídos ───────────────────────────────────
  // WhatsApp Web antepone «(3)» al título del documento. Solo se avisa a Rust
  // cuando el número cambia, así que el canal se usa muy de vez en cuando.
  if (window.__wruspSelf !== 'settings') {
    let last = -1;
    const report = () => {
      const m = /^\(?(\d+)\)/.exec(document.title || '');
      const n = m ? Number(m[1]) : 0;
      if (n === last) return;
      last = n;
      // Pinta ya la insignia propia; Rust confirmará el estado global después.
      const s = window.__wruspState;
      const mine = s && s.accounts.find((a) => a.id === window.__wruspSelf);
      if (mine) { mine.unread = n; render(); }
      go('unread/' + window.__wruspSelf + '/' + n);
    };
    // Este script corre ANTES de que se analice el HTML, así que aquí todavía
    // no existe <title>: hay que engancharse cuando aparezca (y de nuevo si la
    // SPA lo reemplaza). El sondeo es la red de seguridad.
    let observed = null;
    const attach = () => {
      const node = document.querySelector('title');
      if (node && node !== observed) {
        observed = node;
        new MutationObserver(report).observe(node, {
          childList: true,
          characterData: true,
          subtree: true,
        });
      }
    };
    const tick = () => { attach(); report(); };
    document.addEventListener('DOMContentLoaded', tick);
    setInterval(tick, 1500);
  }
})();"#;

/// The sidebar's machinery for the view whose name, as a JSON string, is
/// `own`.
pub open spec fn runtime_text(own: Seq<char>) -> Seq<char> {
    RUNTIME_HEAD@ + own + RUNTIME_TAIL_0@ + RUNTIME_TAIL_1@ + RUNTIME_TAIL_2@
}

/// The sidebar's machinery for the view `own` (`settings` or an account id):
/// drawing the sidebar, the keyboard shortcuts, the notification permission
/// and the unread counter, all talking to the application through
/// `wrusp://` requests.
pub fn runtime_script(own: &str) -> (s: String)
    ensures
        s@ == runtime_text(json_quoted(own@)),
{
    let own = quoted_or(own, "\"\"");
    let mut s = String::from_str(RUNTIME_HEAD);
    push_str(&mut s, own.as_str());
    push_str(&mut s, RUNTIME_TAIL_0);
    push_str(&mut s, RUNTIME_TAIL_1);
    push_str(&mut s, RUNTIME_TAIL_2);
    s
}

} // verus!
